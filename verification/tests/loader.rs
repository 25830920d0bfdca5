use rcore_os::batch::{run_next_app, AppManager};
use rcore_os::loader::{
    get_base_i, init_app_context, load_apps, trap_context_size, AppLoad, KernelStack, UserStack,
};

#[test]
fn app_bases_are_spaced_by_size_limit() {
    assert_eq!(get_base_i(0), 0x8040_0000);
    assert_eq!(get_base_i(3), 0x8040_0000 + 3 * 0x20000);
}

#[test]
fn stack_pointers() {
    let k = KernelStack { base: 0x1000 };
    let u = UserStack { base: 0x10000 };
    assert_eq!(k.get_sp(), 0x1000 + 8192);
    assert_eq!(u.get_sp(), 0x10000 + 8192);
    assert_eq!(trap_context_size(), 34 * std::mem::size_of::<usize>());
    assert_eq!(k.push_context(), 0x1000 + 8192 - 34 * std::mem::size_of::<usize>());
}

#[test]
fn load_plan_for_each_app() {
    let plan = load_apps(&vec![0x100, 0x180, 0x180, 0x300]);
    assert_eq!(
        plan,
        vec![
            AppLoad { src: 0x100, len: 0x80, dst: 0x8040_0000 },
            AppLoad { src: 0x180, len: 0, dst: 0x8042_0000 },
            AppLoad { src: 0x180, len: 0x180, dst: 0x8044_0000 },
        ]
    );
    assert!(load_apps(&vec![0x100]).is_empty());
}

#[test]
fn first_context_of_an_app() {
    let (addr, cx) = init_app_context(2, &KernelStack { base: 0x2000 }, &UserStack { base: 0x8000 }, 0x100);
    assert_eq!(addr, 0x2000 + 8192 - trap_context_size());
    assert_eq!(cx.sepc, 0x8044_0000);
    assert_eq!(cx.x[2], 0x8000 + 8192);
    assert_eq!(cx.sstatus, 0);
}

#[test]
fn batch_table_and_info() {
    let m = AppManager::new(&[0x10, 0x20, 0x50]);
    assert_eq!(m.num_app(), 2);
    assert_eq!(m.current_app(), 0);
    assert_eq!(m.print_app_info(), vec![(0x10, 0x20), (0x20, 0x50)]);
    assert_eq!(m.load_app(0), AppLoad { src: 0x10, len: 0x10, dst: 0x8040_0000 });
    assert_eq!(m.load_app(1), AppLoad { src: 0x20, len: 0x30, dst: 0x8040_0000 });
}

#[test]
fn batch_runs_each_app_once_in_order() {
    let mut m = AppManager::new(&[0x10, 0x20, 0x50]);
    let k = KernelStack { base: 0x3000 };
    let u = UserStack { base: 0x6000 };
    let (load, addr, cx) = run_next_app(&mut m, &k, &u, 0);
    assert_eq!(load, AppLoad { src: 0x10, len: 0x10, dst: 0x8040_0000 });
    assert_eq!(addr, k.push_context());
    assert_eq!(cx.sepc, 0x8040_0000);
    assert_eq!(cx.x[2], u.get_sp());
    assert_eq!(m.current_app(), 1);
    let (load, _, _) = run_next_app(&mut m, &k, &u, 0);
    assert_eq!(load, AppLoad { src: 0x20, len: 0x30, dst: 0x8040_0000 });
    assert_eq!(m.current_app(), 2);
    assert_eq!(m.current_app(), m.num_app());
    let mut m = AppManager::new(&[0x10, 0x20]);
    assert_eq!(m.load_and_move_to_next(), AppLoad { src: 0x10, len: 0x10, dst: 0x8040_0000 });
    assert_eq!(m.current_app(), 1);
}
