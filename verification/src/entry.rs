//! Entry points of applications: how the system calls the function that an application
//! registers, and the hook statics that the entry point attribute defines.
use vstd::prelude::*;
use crate::attributes::{enabled_hooks, Hook, MainAttributes};

verus! {

/// How the system calls a registered entry function.
#[derive(Debug, Copy, Clone, PartialEq, Eq, Structural)]
pub struct EntryCall {
    /// The entry function runs as a task handed to the spawner, instead of being called with
    /// the spawner as first argument.
    pub spawned_as_task: bool,
    /// The peripherals taken from the system are passed to the entry function.
    pub takes_peripherals: bool,
}

/// A non-async entry function is called with the spawner, and with the peripherals when it has
/// a second parameter.
pub open spec fn spec_blocking_call(n_params: nat) -> EntryCall {
    EntryCall { spawned_as_task: false, takes_peripherals: n_params > 1 }
}

/// An async entry function runs as a task, and is given the peripherals when it has a
/// parameter.
pub open spec fn spec_task_call(n_params: nat) -> EntryCall {
    EntryCall { spawned_as_task: true, takes_peripherals: n_params > 0 }
}

/// Returns how the system calls a function registered with the spawner attribute, which has
/// `n_params` parameters. Such a function cannot be async.
pub fn spawner_call(n_params: usize, is_async: bool) -> (r: EntryCall)
    requires
        !is_async,
    ensures
        r == spec_blocking_call(n_params as nat),
{
    EntryCall { spawned_as_task: false, takes_peripherals: n_params > 1 }
}

/// Returns how the system calls a function registered with the entry point attribute, which
/// has `n_params` parameters and may be async.
pub fn main_call(n_params: usize, is_async: bool) -> (r: EntryCall)
    ensures
        r == if is_async { spec_task_call(n_params as nat) } else { spec_blocking_call(
            n_params as nat,
        ) },
{
    if is_async {
        EntryCall { spawned_as_task: true, takes_peripherals: n_params > 0 }
    } else {
        EntryCall { spawned_as_task: false, takes_peripherals: n_params > 1 }
    }
}

/// The statics defined for an enabled hook: the delegate, and its registration under the
/// hook's type.
pub struct DelegateStatics {
    pub hook: Hook,
    pub delegate_ident: String,
    pub registration_ident: String,
    pub hook_type: &'static str,
}

impl DelegateStatics {
    /// The statics defined for `hook`: its parameter in upper case, the same with `_REF`, and
    /// the hook's type.
    pub open spec fn describes(&self, hook: Hook) -> bool {
        &&& self.hook == hook
        &&& self.delegate_ident@ == hook.spec_delegate_ident()
        &&& self.registration_ident@ == hook.spec_delegate_ident() + "_REF"@
        &&& self.hook_type@ == hook.spec_type_name()
    }
}

/// Returns the statics to define for the hooks of `definitions` that the attribute enables,
/// in the order of `definitions` (an async entry point only).
pub fn generate_delegates(definitions: &Vec<Hook>, attrs: &MainAttributes) -> (r: Vec<DelegateStatics>)
    ensures
        r@.len() == definitions@.filter(|h: Hook| attrs.hooks@.contains(h)).len(),
        forall|i: int|
            0 <= i < r@.len() ==> (#[trigger] r@[i]).describes(
                definitions@.filter(|h: Hook| attrs.hooks@.contains(h))[i],
            ),
{
    let hooks = enabled_hooks(definitions, attrs);
    let mut r: Vec<DelegateStatics> = Vec::new();
    let mut i: usize = 0;
    while i < hooks.len()
        invariant
            i <= hooks@.len(),
            r@.len() == i,
            forall|k: int| 0 <= k < i ==> (#[trigger] r@[k]).describes(hooks@[k]),
        decreases hooks@.len() - i,
    {
        let hook = hooks[i];
        r.push(
            DelegateStatics {
                hook,
                delegate_ident: hook.delegate_ident(),
                registration_ident: hook.delegate_ref_ident(),
                hook_type: hook.hook_type_name(),
            },
        );
        i = i + 1;
    }
    r
}

} // verus!
