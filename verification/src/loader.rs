//! Memory layout of the loaded applications and of their stacks, and the
//! plan for copying the applications into place.
use vstd::prelude::*;

use crate::config::{APP_BASE_ADDRESS, APP_SIZE_LIMIT, KERNEL_STACK_SIZE, MAX_APP_NUM, USER_STACK_SIZE};
use crate::trap::context::{user_mode_sstatus, TrapContext};

verus! {

/// Number of bytes a saved [`TrapContext`] occupies on a stack: 34 machine
/// words (32 registers, `sstatus`, `sepc`).
pub fn trap_context_size() -> (n: usize)
    ensures
        n == 34 * (usize::BITS / 8),
{
    proof {
        broadcast use vstd::layout::layout_of_primitives;
    }
    let word = core::mem::size_of::<usize>();
    assert(word * 8 == usize::BITS);
    34 * word
}

/// A kernel stack, by the address of its lowest byte.
#[derive(Copy, Clone, PartialEq, Eq, Structural, Debug)]
pub struct KernelStack {
    pub base: usize,
}

/// A user stack, by the address of its lowest byte.
#[derive(Copy, Clone, PartialEq, Eq, Structural, Debug)]
pub struct UserStack {
    pub base: usize,
}

impl KernelStack {
    /// The initial stack pointer: the stack grows downwards, so it starts at
    /// the top, just past the stack's last byte.
    pub fn get_sp(&self) -> (sp: usize)
        requires
            self.base + KERNEL_STACK_SIZE <= usize::MAX,
        ensures
            sp == self.base + KERNEL_STACK_SIZE,
    {
        self.base + KERNEL_STACK_SIZE
    }

    /// Where a trap context pushed onto the empty stack lies: just below the
    /// top. The caller stores the context there; the address is also the
    /// stack pointer afterwards.
    pub fn push_context(&self) -> (addr: usize)
        requires
            self.base + KERNEL_STACK_SIZE <= usize::MAX,
        ensures
            addr == self.base + KERNEL_STACK_SIZE - 34 * (usize::BITS / 8),
            self.base <= addr,
    {
        self.get_sp() - trap_context_size()
    }
}

impl UserStack {
    /// The initial stack pointer: the top of the stack.
    pub fn get_sp(&self) -> (sp: usize)
        requires
            self.base + USER_STACK_SIZE <= usize::MAX,
        ensures
            sp == self.base + USER_STACK_SIZE,
    {
        self.base + USER_STACK_SIZE
    }
}

/// The address at which application `app_id` is loaded.
pub open spec fn app_base(app_id: int) -> int {
    APP_BASE_ADDRESS + app_id * APP_SIZE_LIMIT
}

/// The address at which application `app_id` is loaded: applications lie
/// one after another, `APP_SIZE_LIMIT` bytes apart, from `APP_BASE_ADDRESS` on.
pub fn get_base_i(app_id: usize) -> (base: usize)
    requires
        app_base(app_id as int) <= usize::MAX,
    ensures
        base == app_base(app_id as int),
{
    APP_BASE_ADDRESS + app_id * APP_SIZE_LIMIT
}

/// Law: the first application lies at `APP_BASE_ADDRESS`, and each next one
/// exactly `APP_SIZE_LIMIT` bytes above the one before it.
pub proof fn lemma_app_slots_consecutive(i: int)
    requires
        0 <= i,
    ensures
        app_base(0) == APP_BASE_ADDRESS,
        app_base(i + 1) == app_base(i) + APP_SIZE_LIMIT,
{
    assert((i + 1) * APP_SIZE_LIMIT == i * APP_SIZE_LIMIT + APP_SIZE_LIMIT) by (nonlinear_arith);
}

/// Law: the regions of two different applications do not overlap.
pub proof fn lemma_app_regions_disjoint(i: int, j: int)
    requires
        0 <= i < j,
    ensures
        app_base(i) + APP_SIZE_LIMIT <= app_base(j),
{
    assert(i * APP_SIZE_LIMIT + APP_SIZE_LIMIT <= j * APP_SIZE_LIMIT) by (nonlinear_arith)
        requires
            i < j,
    ;
}

/// How to load one application: clear `APP_SIZE_LIMIT` bytes at `dst`, then
/// copy the `len` bytes at `src` to `dst`.
#[derive(Copy, Clone, PartialEq, Eq, Structural, Debug)]
pub struct AppLoad {
    pub src: usize,
    pub len: usize,
    pub dst: usize,
}

/// The plan for loading every application, given the table of their
/// addresses in the kernel image: application `i` occupies
/// `app_start[i]..app_start[i + 1]` and goes to its own slot.
pub fn load_apps(app_start: &Vec<usize>) -> (plan: Vec<AppLoad>)
    requires
        app_start@.len() >= 1,
        forall|i: int| 0 <= i < app_start@.len() - 1 ==> app_base(i) <= usize::MAX,
        forall|i: int|
            0 <= i < app_start@.len() - 1 ==> #[trigger] app_start@[i] <= app_start@[i + 1],
    ensures
        plan@.len() == app_start@.len() - 1,
        forall|i: int|
            0 <= i < plan@.len() ==> #[trigger] plan@[i] == (AppLoad {
                src: app_start@[i],
                len: (app_start@[i + 1] - app_start@[i]) as usize,
                dst: app_base(i) as usize,
            }),
{
    let num_app = app_start.len() - 1;
    let mut plan: Vec<AppLoad> = Vec::new();
    let mut i: usize = 0;
    while i < num_app
        invariant
            num_app == app_start@.len() - 1,
            i <= num_app,
            plan@.len() == i,
            forall|k: int| 0 <= k < num_app ==> app_base(k) <= usize::MAX,
            forall|k: int| 0 <= k < num_app ==> #[trigger] app_start@[k] <= app_start@[k + 1],
            forall|k: int|
                0 <= k < i ==> #[trigger] plan@[k] == (AppLoad {
                    src: app_start@[k],
                    len: (app_start@[k + 1] - app_start@[k]) as usize,
                    dst: app_base(k) as usize,
                }),
        decreases num_app - i,
    {
        assert(app_start@[i as int] <= app_start@[i + 1]);
        let base_i = get_base_i(i);
        plan.push(AppLoad { src: app_start[i], len: app_start[i + 1] - app_start[i], dst: base_i });
        i = i + 1;
    }
    plan
}

/// The first trap context of application `app_id` and where it lies: the
/// context enters user mode at the application's load address with the
/// stack pointer at the top of `user_stack`, and it is pushed onto
/// `kernel_stack`. `sstatus_bits` is the current `sstatus` value.
pub fn init_app_context(
    app_id: usize,
    kernel_stack: &KernelStack,
    user_stack: &UserStack,
    sstatus_bits: usize,
) -> (r: (usize, TrapContext))
    requires
        app_id < MAX_APP_NUM,
        kernel_stack.base + KERNEL_STACK_SIZE <= usize::MAX,
        user_stack.base + USER_STACK_SIZE <= usize::MAX,
    ensures
        r.0 == kernel_stack.base + KERNEL_STACK_SIZE - 34 * (usize::BITS / 8),
        r.1.sepc == app_base(app_id as int),
        r.1.sstatus == user_mode_sstatus(sstatus_bits),
        r.1.x@ == Seq::new(32, |i: int| if i == 2 { (user_stack.base + USER_STACK_SIZE) as usize } else { 0usize }),
{
    let cx = TrapContext::new_app_init(get_base_i(app_id), user_stack.get_sp(), sstatus_bits);
    (kernel_stack.push_context(), cx)
}

} // verus!
