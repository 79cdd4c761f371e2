use vstd::prelude::*;

verus! {

/// How registering one more async function changes the `coroutine.yield`
/// replacement.
#[derive(Debug, Clone, Copy, Eq, PartialEq, Structural)]
pub enum YieldRegistration {
    /// The replacement is already installed: record this new user count.
    Share(u64),
    /// No replacement is installed: save the original `coroutine.yield`,
    /// install the replacement and record one user.
    Install,
}

/// How releasing one async function changes the `coroutine.yield` replacement.
#[derive(Debug, Clone, Copy, Eq, PartialEq, Structural)]
pub enum YieldRelease {
    /// Nothing is installed: leave everything as it is.
    Keep,
    /// Other users remain: record this new user count.
    Decrement(u64),
    /// The last user is gone: put the original `coroutine.yield` back (if
    /// the replacement is still the current one) and forget the saved state.
    Uninstall,
}

/// Why an async function could not take part in the `coroutine.yield` replacement.
#[derive(Debug, Clone, Copy, Eq, PartialEq, Structural)]
pub enum YieldFixupError {
    /// The user count cannot grow any further.
    UserCountExhausted,
}

impl YieldFixupError {
    /// The message the error is reported with.
    pub fn message(&self) -> (r: &'static str)
        ensures
            r@ == "async yield user count exhausted"@,
    {
        "async yield user count exhausted"
    }
}

/// The user count after one registration; `None` means nothing is installed.
pub open spec fn registered(active: Option<u64>) -> Result<Option<u64>, YieldFixupError> {
    match active {
        None => Ok(Some(1u64)),
        Some(count) => if count < u64::MAX {
            Ok(Some((count + 1) as u64))
        } else {
            Err(YieldFixupError::UserCountExhausted)
        },
    }
}

/// The user count after one release; `None` means nothing is installed.
pub open spec fn released(active: Option<u64>) -> Option<u64> {
    match active {
        None => None,
        Some(count) => if count > 1 {
            Some((count - 1) as u64)
        } else {
            None
        },
    }
}

/// Decides how to register one more async function, given the recorded user
/// count (`None` when no replacement is installed).
pub fn plan_yield_registration(active: Option<u64>) -> (r: Result<YieldRegistration, YieldFixupError>)
    ensures
        active is None ==> r == Ok::<YieldRegistration, YieldFixupError>(YieldRegistration::Install),
        active is Some && active->0 < u64::MAX ==> r == Ok::<YieldRegistration, YieldFixupError>(
            YieldRegistration::Share((active->0 + 1) as u64),
        ),
        active is Some && active->0 == u64::MAX ==> r == Err::<YieldRegistration, YieldFixupError>(
            YieldFixupError::UserCountExhausted,
        ),
        registered(active) == (match r {
            Ok(YieldRegistration::Install) => Ok(Some(1u64)),
            Ok(YieldRegistration::Share(count)) => Ok(Some(count)),
            Err(error) => Err(error),
        }),
{
    match active {
        None => Ok(YieldRegistration::Install),
        Some(count) => match count.checked_add(1) {
            Some(next) => Ok(YieldRegistration::Share(next)),
            None => Err(YieldFixupError::UserCountExhausted),
        },
    }
}

/// Decides how to release one async function, given the recorded user count
/// (`None` when no replacement is installed).
pub fn plan_yield_release(active: Option<u64>) -> (r: YieldRelease)
    ensures
        active is None ==> r == YieldRelease::Keep,
        active is Some && active->0 > 1 ==> r == YieldRelease::Decrement((active->0 - 1) as u64),
        active is Some && active->0 <= 1 ==> r == YieldRelease::Uninstall,
        released(active) == (match r {
            YieldRelease::Decrement(count) => Some(count),
            _ => None,
        }),
{
    match active {
        None => YieldRelease::Keep,
        Some(count) => if count > 1 {
            YieldRelease::Decrement(count - 1)
        } else {
            YieldRelease::Uninstall
        },
    }
}

/// A recorded count is either nothing installed or at least one user.
pub open spec fn reachable(active: Option<u64>) -> bool {
    match active {
        None => true,
        Some(count) => count >= 1,
    }
}

/// Releasing undoes a successful registration, from every reachable count.
pub proof fn release_undoes_registration(active: Option<u64>)
    requires
        reachable(active),
        registered(active) is Ok,
    ensures
        released(registered(active)->Ok_0) == active,
        reachable(registered(active)->Ok_0),
{
}

/// The count after `n` registrations starting from nothing installed.
pub open spec fn after_registrations(n: nat) -> Option<u64> {
    if n == 0 {
        None
    } else {
        Some(n as u64)
    }
}

/// `k` releases applied to `active`.
pub open spec fn after_releases(active: Option<u64>, k: nat) -> Option<u64>
    decreases k,
{
    if k == 0 {
        active
    } else {
        after_releases(released(active), (k - 1) as nat)
    }
}

/// `k` releases after `n` registrations leave `n - k` users recorded.
proof fn releases_count_down(n: nat, k: nat)
    requires
        n <= u64::MAX,
        k <= n,
    ensures
        after_releases(after_registrations(n), k) == after_registrations((n - k) as nat),
    decreases k,
{
    if k > 0 {
        assert(released(after_registrations(n)) == after_registrations((n - 1) as nat));
        releases_count_down((n - 1) as nat, (k - 1) as nat);
    }
}

/// With `n` async functions registered, the replacement stays installed
/// until the last of them is released, and is uninstalled then.
pub proof fn original_yield_restored_after_last_release(n: nat, k: nat)
    requires
        1 <= n <= u64::MAX,
        k <= n,
    ensures
        after_releases(after_registrations(n), k) == after_registrations((n - k) as nat),
        k < n ==> after_releases(after_registrations(n), k) is Some,
        after_releases(after_registrations(n), n) is None,
{
    releases_count_down(n, k);
    releases_count_down(n, n);
}

/// `n` successive registrations from nothing installed record `n` users.
pub proof fn registrations_count_users(n: nat)
    requires
        n < u64::MAX,
    ensures
        registered(after_registrations(n)) == Ok::<Option<u64>, YieldFixupError>(
            after_registrations(n + 1),
        ),
{
}

/// What the Lua registry records about the `coroutine.yield` replacement.
#[derive(Debug, Clone, Copy, PartialEq, Eq, Structural)]
pub struct YieldRegistry {
    /// Number of async functions sharing the replacement; `None` when none is installed.
    pub users: Option<u64>,
    /// Whether the replacement function is saved.
    pub wrapper_saved: bool,
    /// Whether the original `coroutine.yield` is saved.
    pub original_saved: bool,
}

/// The registry with nothing installed.
pub open spec fn empty_registry() -> YieldRegistry {
    YieldRegistry { users: None, wrapper_saved: false, original_saved: false }
}

/// What the registry holds after an install: the original and the
/// replacement saved and one user recorded when `coroutine.yield` could be
/// replaced; otherwise everything recorded by the attempt is removed again.
pub fn finish_yield_install(assigned: bool) -> (r: YieldRegistry)
    ensures
        assigned ==> r == (YieldRegistry { users: Some(1u64), wrapper_saved: true, original_saved: true }),
        !assigned ==> r == empty_registry(),
{
    if assigned {
        YieldRegistry { users: Some(1), wrapper_saved: true, original_saved: true }
    } else {
        YieldRegistry { users: None, wrapper_saved: false, original_saved: false }
    }
}

/// What uninstalling the replacement does.
#[derive(Debug, Clone, Copy, PartialEq, Eq, Structural)]
pub struct YieldUninstall {
    /// Whether to put the original `coroutine.yield` back.
    pub restore_original: bool,
    /// What the registry holds afterwards.
    pub registry: YieldRegistry,
}

/// The original `coroutine.yield` is put back only when the replacement is
/// still the current one, so a function someone else installed since is
/// left alone; the saved state is forgotten either way.
pub fn plan_yield_uninstall(current_is_wrapper: bool) -> (r: YieldUninstall)
    ensures
        r.restore_original == current_is_wrapper,
        r.registry == empty_registry(),
{
    YieldUninstall {
        restore_original: current_is_wrapper,
        registry: YieldRegistry { users: None, wrapper_saved: false, original_saved: false },
    }
}

/// An install is only attempted when nothing is installed, and a failed
/// install leaves the registry as it found it.
pub proof fn failed_install_leaves_nothing_installed(active: Option<u64>)
    requires
        registered(active) == Ok::<Option<u64>, YieldFixupError>(Some(1u64)),
        reachable(active),
    ensures
        active is None,
        empty_registry().users == active,
{
}

} // verus!
