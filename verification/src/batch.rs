//! The batch system: applications run one after another, each loaded at
//! the same address.
use vstd::prelude::*;

use crate::config::{APP_BASE_ADDRESS, APP_SIZE_LIMIT, KERNEL_STACK_SIZE, MAX_APP_NUM, USER_STACK_SIZE};
use crate::loader::{AppLoad, KernelStack, UserStack};
use crate::trap::context::{user_mode_sstatus, TrapContext};

verus! {

/// The batch system's application table and its position in it.
pub struct AppManager {
    num_app: usize,
    current_app: usize,
    app_start: Vec<usize>,
}

impl AppManager {
    /// Well-formedness: a table of `MAX_APP_NUM + 1` addresses, of which the
    /// first `num_app + 1` are meaningful.
    pub closed spec fn wf(&self) -> bool {
        &&& self.num_app <= MAX_APP_NUM
        &&& self.app_start@.len() == MAX_APP_NUM + 1
    }

    /// Number of applications.
    pub closed spec fn spec_num_app(&self) -> int {
        self.num_app as int
    }

    /// The next application to run.
    pub closed spec fn spec_current_app(&self) -> int {
        self.current_app as int
    }

    /// Address of application `i` in the kernel image; `i == num_app` gives
    /// the end of the last application.
    pub closed spec fn start(&self, i: int) -> usize {
        self.app_start@[i]
    }

    /// How application `app_id` is loaded: copied from its place in the
    /// kernel image to `APP_BASE_ADDRESS`.
    pub open spec fn load_app_spec(&self, app_id: int) -> AppLoad {
        AppLoad {
            src: self.start(app_id),
            len: (self.start(app_id + 1) - self.start(app_id)) as usize,
            dst: APP_BASE_ADDRESS,
        }
    }

    /// Application `app_id` exists and its image, which lies between its
    /// start address and the next one, fits in the load area.
    pub open spec fn loadable(&self, app_id: int) -> bool {
        &&& 0 <= app_id < self.spec_num_app()
        &&& self.start(app_id) <= self.start(app_id + 1)
        &&& self.start(app_id + 1) - self.start(app_id) <= APP_SIZE_LIMIT
    }

    /// A manager for the applications described by `app_start_raw`: the
    /// start addresses of the applications followed by the end of the last
    /// one. The first application runs first.
    pub fn new(app_start_raw: &[usize]) -> (m: Self)
        requires
            1 <= app_start_raw@.len() <= MAX_APP_NUM + 1,
        ensures
            m.wf(),
            m.spec_num_app() == app_start_raw@.len() - 1,
            m.spec_current_app() == 0,
            forall|i: int| 0 <= i < app_start_raw@.len() ==> m.start(i) == app_start_raw@[i],
            forall|i: int| app_start_raw@.len() <= i <= MAX_APP_NUM ==> m.start(i) == 0,
    {
        let num_app = app_start_raw.len() - 1;
        let mut app_start: Vec<usize> = Vec::new();
        let mut i: usize = 0;
        while i < MAX_APP_NUM + 1
            invariant
                num_app + 1 == app_start_raw@.len(),
                num_app <= MAX_APP_NUM,
                i <= MAX_APP_NUM + 1,
                app_start@.len() == i,
                forall|k: int| 0 <= k < i && k <= num_app ==> app_start@[k] == app_start_raw@[k],
                forall|k: int| 0 <= k < i && num_app < k ==> app_start@[k] == 0,
            decreases MAX_APP_NUM + 1 - i,
        {
            if i <= num_app {
                app_start.push(app_start_raw[i]);
            } else {
                app_start.push(0);
            }
            i = i + 1;
        }
        AppManager { num_app, current_app: 0, app_start }
    }

    /// Number of applications.
    pub fn num_app(&self) -> (n: usize)
        ensures
            n == self.spec_num_app(),
    {
        self.num_app
    }

    /// The next application to run.
    pub fn current_app(&self) -> (c: usize)
        ensures
            c == self.spec_current_app(),
    {
        self.current_app
    }

    /// The address range of every application in the kernel image, in order.
    pub fn print_app_info(&self) -> (ranges: Vec<(usize, usize)>)
        requires
            self.wf(),
        ensures
            ranges@.len() == self.spec_num_app(),
            forall|i: int|
                0 <= i < ranges@.len() ==> #[trigger] ranges@[i] == (self.start(i), self.start(i + 1)),
    {
        let mut ranges: Vec<(usize, usize)> = Vec::new();
        let mut i: usize = 0;
        while i < self.num_app
            invariant
                self.wf(),
                i <= self.num_app,
                ranges@.len() == i,
                forall|k: int|
                    0 <= k < i ==> #[trigger] ranges@[k] == (self.start(k), self.start(k + 1)),
            decreases self.num_app - i,
        {
            ranges.push((self.app_start[i], self.app_start[i + 1]));
            i = i + 1;
        }
        ranges
    }

    /// How to load application `app_id` at `APP_BASE_ADDRESS`. The
    /// application must exist (past the last one every application has
    /// completed) and its image must fit in `APP_SIZE_LIMIT` bytes.
    pub fn load_app(&self, app_id: usize) -> (r: AppLoad)
        requires
            self.wf(),
            self.loadable(app_id as int),
        ensures
            r == self.load_app_spec(app_id as int),
            r.src == self.start(app_id as int),
            r.len == self.start(app_id as int + 1) - self.start(app_id as int),
            r.dst == APP_BASE_ADDRESS,
            r.len <= APP_SIZE_LIMIT,
    {
        AppLoad {
            src: self.app_start[app_id],
            len: self.app_start[app_id + 1] - self.app_start[app_id],
            dst: APP_BASE_ADDRESS,
        }
    }

    /// Law: loading an application copies its whole image, from its start
    /// address in the kernel image up to the start of the next one, to
    /// `APP_BASE_ADDRESS`.
    pub proof fn lemma_load_copies_image(&self, app_id: int)
        requires
            self.loadable(app_id),
        ensures
            self.load_app_spec(app_id).src == self.start(app_id),
            self.load_app_spec(app_id).src + self.load_app_spec(app_id).len == self.start(app_id + 1),
            self.load_app_spec(app_id).dst == APP_BASE_ADDRESS,
    {
    }

    /// Loads the next application and moves on to the one after it.
    pub fn load_and_move_to_next(&mut self) -> (r: AppLoad)
        requires
            old(self).wf(),
            old(self).loadable(old(self).spec_current_app()),
        ensures
            final(self).wf(),
            final(self).spec_num_app() == old(self).spec_num_app(),
            forall|i: int| final(self).start(i) == old(self).start(i),
            r == old(self).load_app_spec(old(self).spec_current_app()),
            r.len <= APP_SIZE_LIMIT,
            final(self).spec_current_app() == old(self).spec_current_app() + 1,
    {
        let r = self.load_app(self.current_app);
        self.current_app = self.current_app + 1;
        r
    }
}

/// Runs the next application of the batch, which must exist: how to load
/// it, and the trap context (entering user mode at `APP_BASE_ADDRESS` with
/// the stack pointer at the top of `user_stack`) to push onto
/// `kernel_stack`, with the address it goes to. `sstatus_bits` is the
/// current `sstatus` value.
pub fn run_next_app(
    manager: &mut AppManager,
    kernel_stack: &KernelStack,
    user_stack: &UserStack,
    sstatus_bits: usize,
) -> (r: (AppLoad, usize, TrapContext))
    requires
        old(manager).wf(),
        old(manager).loadable(old(manager).spec_current_app()),
        kernel_stack.base + KERNEL_STACK_SIZE <= usize::MAX,
        user_stack.base + USER_STACK_SIZE <= usize::MAX,
    ensures
        final(manager).wf(),
        final(manager).spec_num_app() == old(manager).spec_num_app(),
        forall|i: int| final(manager).start(i) == old(manager).start(i),
        final(manager).spec_current_app() == old(manager).spec_current_app() + 1,
        r.0 == old(manager).load_app_spec(old(manager).spec_current_app()),
        r.0.len <= APP_SIZE_LIMIT,
        r.1 == kernel_stack.base + KERNEL_STACK_SIZE - 34 * (usize::BITS / 8),
        r.2.sepc == APP_BASE_ADDRESS,
        r.2.sstatus == user_mode_sstatus(sstatus_bits),
        r.2.x@ == Seq::new(
            32,
            |i: int| if i == 2 { (user_stack.base + USER_STACK_SIZE) as usize } else { 0usize },
        ),
{
    let load = manager.load_and_move_to_next();
    let cx = TrapContext::new_app_init(APP_BASE_ADDRESS, user_stack.get_sp(), sstatus_bits);
    (load, kernel_stack.push_context(), cx)
}

} // verus!
