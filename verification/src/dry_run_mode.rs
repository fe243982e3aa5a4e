//! Keyed policy-mode bracketing: a per-call override of the agent's
//! dry-run mode is implemented by a push promise before the call and a
//! matching pop promise after it, both keyed by the call's unique
//! report key. No override means no bracket at all.

use vstd::prelude::*;

use crate::cfengine::{quoted, quoted_spec};
use crate::promise::{usebundle_view, Promise, PromiseView};
use crate::technique::PolicyMode;

verus! {

/// The optional mode-push promise for a requested override: none when
/// no override is requested, otherwise a keyed push of `"true"` (audit)
/// or `"false"` (enforce).
pub open spec fn push_policy_mode_spec(op: Option<PolicyMode>, unique: Seq<char>) -> Option<
    PromiseView,
> {
    match op {
        Option::None => Option::None,
        Option::Some(PolicyMode::Audit) => Option::Some(
            usebundle_view(
                "push_dry_run_mode"@,
                Option::None,
                Option::Some(unique),
                seq![quoted_spec("true"@)],
            ),
        ),
        Option::Some(PolicyMode::Enforce) => Option::Some(
            usebundle_view(
                "push_dry_run_mode"@,
                Option::None,
                Option::Some(unique),
                seq![quoted_spec("false"@)],
            ),
        ),
    }
}

/// The matching optional mode-pop promise: present exactly when the
/// push is, keyed by the same unique report key.
pub open spec fn pop_policy_mode_spec(op: Option<PolicyMode>, unique: Seq<char>) -> Option<
    PromiseView,
> {
    match op {
        Option::None => Option::None,
        Option::Some(_) => Option::Some(
            usebundle_view("pop_dry_run_mode"@, Option::None, Option::Some(unique), Seq::empty()),
        ),
    }
}

/// Build the optional dry-run push promise for one call.
pub fn push_policy_mode(op: Option<PolicyMode>, unique: &str) -> (r: Option<Promise>)
    ensures
        r.deep_view() == push_policy_mode_spec(op, unique@),
{
    match op {
        Option::None => Option::None,
        Option::Some(PolicyMode::Audit) => {
            let mut args: Vec<String> = Vec::new();
            args.push(quoted("true"));
            proof {
                assert(args.deep_view() =~= seq![quoted_spec("true"@)]);
            }
            Option::Some(Promise::usebundle("push_dry_run_mode", Option::None, Option::Some(unique), args))
        },
        Option::Some(PolicyMode::Enforce) => {
            let mut args: Vec<String> = Vec::new();
            args.push(quoted("false"));
            proof {
                assert(args.deep_view() =~= seq![quoted_spec("false"@)]);
            }
            Option::Some(Promise::usebundle("push_dry_run_mode", Option::None, Option::Some(unique), args))
        },
    }
}

/// Build the optional dry-run pop promise for one call.
pub fn pop_policy_mode(op: Option<PolicyMode>, unique: &str) -> (r: Option<Promise>)
    ensures
        r.deep_view() == pop_policy_mode_spec(op, unique@),
{
    match op {
        Option::None => Option::None,
        Option::Some(_) => {
            let args: Vec<String> = Vec::new();
            proof {
                assert(args.deep_view() =~= Seq::<Seq<char>>::empty());
            }
            Option::Some(Promise::usebundle("pop_dry_run_mode", Option::None, Option::Some(unique), args))
        },
    }
}

} // verus!
