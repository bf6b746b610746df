//! Substitution of defaults in a positional argument list.
//!
//! A remote procedure takes its parameters by position. The last `M`
//! parameters of an operation are optional, and a caller that omits one sends
//! `null` in its place. Omitted parameters at the very end are dropped, so that
//! the daemon applies its own defaults; an omitted parameter followed by a
//! supplied one cannot be skipped and is filled from the operation's table
//! of defaults.

use crate::wire::{json_of, wire, Json};
use serde_json::Value;
use vstd::prelude::*;

verus! {

/// Number of leading arguments that are transmitted: everything up to and
/// including the rightmost optional argument that was supplied, and never
/// less than the `required` leading arguments.
pub open spec fn transmitted_len(args: Seq<Json>, required: int) -> int
    decreases args.len(),
{
    if args.len() <= required || args.len() == 0 {
        args.len() as int
    } else if args.last() is Null {
        transmitted_len(args.drop_last(), required)
    } else {
        args.len() as int
    }
}

/// The argument at position `i` as it is transmitted: an omitted optional
/// argument is replaced by its default, which is aligned to the tail of `args`.
pub open spec fn filled(args: Seq<Json>, defaults: Seq<Json>, i: int) -> Json {
    let required = args.len() - defaults.len();
    if i >= required && args[i] is Null {
        defaults[i - required]
    } else {
        args[i]
    }
}

/// The list that is transmitted for `args` under the table `defaults`.
pub open spec fn with_defaults(args: Seq<Json>, defaults: Seq<Json>) -> Seq<Json> {
    let required = args.len() - defaults.len();
    Seq::new(transmitted_len(args, required) as nat, |i: int| filled(args, defaults, i))
}

/// Position `i` is an omitted optional argument that must be filled, but whose
/// default is itself `null`.
pub open spec fn lacks_default(args: Seq<Json>, defaults: Seq<Json>, i: int) -> bool {
    let required = args.len() - defaults.len();
    &&& required <= i < transmitted_len(args, required)
    &&& args[i] is Null
    &&& defaults[i - required] is Null
}

/// Every omitted argument that must be filled has a default to fill it with.
pub open spec fn defaults_suffice(args: Seq<Json>, defaults: Seq<Json>) -> bool {
    forall|i: int| !lacks_default(args, defaults, i)
}

/// `transmitted_len` is the one length in `required ..= args.len()` behind
/// which every argument is omitted and which either is `required` or ends in
/// a supplied argument.
pub proof fn lemma_transmitted_len(args: Seq<Json>, required: int, len: int)
    requires
        0 <= required <= len <= args.len(),
        forall|j: int| len <= j < args.len() ==> args[j] is Null,
        len == required || !(args[len - 1] is Null),
    ensures
        transmitted_len(args, required) == len,
    decreases args.len(),
{
    if args.len() > len {
        let shorter = args.drop_last();
        assert(args.last() is Null);
        assert forall|j: int| len <= j < shorter.len() implies shorter[j] is Null by {
            assert(shorter[j] == args[j]);
        }
        if len > required {
            assert(shorter[len - 1] == args[len - 1]);
        }
        lemma_transmitted_len(shorter, required, len);
    }
}

/// The transmitted length lies between the number of required arguments and
/// the length of the list, everything behind it is omitted, and it ends in a
/// supplied argument unless no optional argument was supplied at all.
pub proof fn lemma_transmitted_len_bounds(args: Seq<Json>, required: int)
    requires
        0 <= required <= args.len(),
    ensures
        required <= transmitted_len(args, required) <= args.len(),
        forall|j: int| transmitted_len(args, required) <= j < args.len() ==> args[j] is Null,
        transmitted_len(args, required) == required || !(args[transmitted_len(args, required)
            - 1] is Null),
    decreases args.len(),
{
    if args.len() > required && args.last() is Null {
        let shorter = args.drop_last();
        lemma_transmitted_len_bounds(shorter, required);
        let len = transmitted_len(shorter, required);
        assert forall|j: int| len <= j < args.len() implies args[j] is Null by {
            if j < shorter.len() {
                assert(shorter[j] == args[j]);
            }
        }
        if len > required {
            assert(shorter[len - 1] == args[len - 1]);
        }
    }
}

/// How long the transmitted list is: at least the required arguments and at
/// most all of them; only the required ones where every optional argument is
/// omitted; all of them where the last one is supplied.
pub proof fn lemma_with_defaults_len(args: Seq<Json>, defaults: Seq<Json>)
    requires
        defaults.len() <= args.len(),
    ensures
        args.len() - defaults.len() <= with_defaults(args, defaults).len() <= args.len(),
        (forall|i: int| args.len() - defaults.len() <= i < args.len() ==> args[i] is Null)
            ==> with_defaults(args, defaults).len() == args.len() - defaults.len(),
        defaults.len() > 0 && !(args.last() is Null) ==> with_defaults(args, defaults).len()
            == args.len(),
{
    let required = args.len() - defaults.len();
    lemma_transmitted_len_bounds(args, required);
    if forall|i: int| required <= i < args.len() ==> args[i] is Null {
        lemma_transmitted_len(args, required, required);
    }
}

/// Applying the substitution again to its own result, with an empty table of
/// defaults, changes nothing.
pub proof fn lemma_with_defaults_idempotent(args: Seq<Json>, defaults: Seq<Json>)
    requires
        defaults.len() <= args.len(),
    ensures
        with_defaults(with_defaults(args, defaults), Seq::empty()) == with_defaults(
            args,
            defaults,
        ),
{
    let once = with_defaults(args, defaults);
    lemma_transmitted_len_bounds(args, args.len() - defaults.len());
    assert(transmitted_len(once, once.len() as int) == once.len());
    assert(with_defaults(once, Seq::empty()) =~= once);
}

/// With an empty table of defaults every list is transmitted as it is.
pub proof fn lemma_with_defaults_empty_table(args: Seq<Json>)
    ensures
        with_defaults(args, Seq::empty()) == args,
{
    assert(transmitted_len(args, args.len() as int) == args.len());
    assert(with_defaults(args, Seq::empty()) =~= args);
}

/// Computes the argument list to transmit, filling `args` in place.
///
/// `defaults` is aligned to the tail of `args`: its last entry belongs to the
/// last argument. Arguments without an entry are required and stay as they
/// are. The optional arguments are visited from the last to the first. Omitted
/// ones behind which nothing was supplied are left out of the result; the
/// others are filled from `defaults`.
pub fn handle_defaults<'a, 'b>(args: &'a mut [Value], defaults: &'b [Value]) -> (out: &'a [Value])
    requires
        defaults.len() <= old(args).len(),
        defaults_suffice(wire(old(args)@), wire(defaults@)),
    ensures
        wire(out@) == with_defaults(wire(old(args)@), wire(defaults@)),
        old(args).len() - defaults.len() <= out.len() <= old(args).len(),
        forall|i: int|
            #![trigger out[i]]
            0 <= i < out.len() && (i < old(args).len() - defaults.len()
                || !(json_of(old(args)[i]) is Null)) ==> out[i] == old(args)[i],
        (forall|i: int|
            old(args).len() - defaults.len() <= i < old(args).len() ==> json_of(old(args)[i])
                is Null) ==> out.len() == old(args).len() - defaults.len(),
        defaults.len() > 0 && !(json_of(old(args)[old(args).len() - 1]) is Null) ==> out.len()
            == old(args).len(),
        defaults.len() == 0 ==> out@ == old(args)@,
        final(args).len() == old(args).len(),
        out@ == final(args)@.take(out.len() as int),
        final(args)@.skip(out.len() as int) == old(args)@.skip(out.len() as int),
{
    let n = args.len();
    let m = defaults.len();
    let required = n - m;
    let ghost before = wire(args@);
    let ghost table = wire(defaults@);
    let mut first_non_null_optional_idx: Option<usize> = None;
    let mut i: usize = 0;
    while i < m
        invariant
            n == args.len(),
            n == old(args).len(),
            m == defaults.len(),
            m <= n,
            required == n - m,
            i <= m,
            before == wire(old(args)@),
            table == wire(defaults@),
            defaults_suffice(before, table),
            first_non_null_optional_idx is None ==> forall|j: int|
                n - i <= j < n ==> before[j] is Null,
            first_non_null_optional_idx matches Some(b) ==> {
                &&& n - i <= b < n
                &&& !(before[b as int] is Null)
                &&& forall|j: int| b < j < n ==> before[j] is Null
            },
            first_non_null_optional_idx is None ==> args@ == old(args)@,
            forall|j: int|
                #![trigger args[j]]
                0 <= j < n && (!(before[j] is Null) || j < n - i || j
                    > first_non_null_optional_idx->Some_0) ==> args[j] == old(args)[j],
            forall|j: int|
                0 <= j < n ==> json_of(#[trigger] args[j]) == if n - i <= j && (
                first_non_null_optional_idx matches Some(b) && j < b) {
                    filled(before, table, j)
                } else {
                    before[j]
                },
        decreases m - i,
    {
        let args_i = n - 1 - i;
        let defaults_i = m - 1 - i;
        if args[args_i].is_null() {
            if first_non_null_optional_idx.is_some() {
                proof {
                    let b = first_non_null_optional_idx->Some_0 as int;
                    lemma_transmitted_len(before, required as int, b + 1);
                    assert(!lacks_default(before, table, args_i as int));
                }
                args[args_i] = defaults[defaults_i].clone();
            }
        } else if first_non_null_optional_idx.is_none() {
            first_non_null_optional_idx = Some(args_i);
        }
        i += 1;
    }
    proof {
        match first_non_null_optional_idx {
            Some(b) => lemma_transmitted_len(before, required as int, b as int + 1),
            None => lemma_transmitted_len(before, required as int, required as int),
        }
        lemma_with_defaults_len(before, table);
    }
    let out = if let Some(i) = first_non_null_optional_idx {
        &args[0..i + 1]
    } else {
        &args[0..required]
    };
    proof {
        assert(wire(out@) =~= with_defaults(before, table));
        assert(m == 0 ==> out@ =~= old(args)@);
        assert(out@ =~= args@.take(out.len() as int));
        assert(args@.skip(out.len() as int) =~= old(args)@.skip(out.len() as int));
    }
    out
}

/// Looks for an omitted argument that would have to be filled but has no
/// default, visiting the optional arguments from the last to the first, and
/// returns the position of the first one it meets.
///
/// `None` means that `handle_defaults` may be called on these lists.
pub fn missing_default(args: &[Value], defaults: &[Value]) -> (missing: Option<usize>)
    requires
        defaults.len() <= args.len(),
    ensures
        missing is None <==> defaults_suffice(wire(args@), wire(defaults@)),
        missing matches Some(i) ==> {
            &&& lacks_default(wire(args@), wire(defaults@), i as int)
            &&& forall|j: int| i < j ==> !lacks_default(wire(args@), wire(defaults@), j)
        },
{
    let n = args.len();
    let m = defaults.len();
    let required = n - m;
    let ghost before = wire(args@);
    let ghost table = wire(defaults@);
    let mut supplied: Option<usize> = None;
    let mut i: usize = 0;
    while i < m
        invariant
            n == args.len(),
            m == defaults.len(),
            m <= n,
            required == n - m,
            i <= m,
            before == wire(args@),
            table == wire(defaults@),
            supplied is None ==> forall|j: int| n - i <= j < n ==> before[j] is Null,
            supplied matches Some(b) ==> {
                &&& n - i <= b < n
                &&& !(before[b as int] is Null)
                &&& forall|j: int| b < j < n ==> before[j] is Null
                &&& forall|j: int|
                    n - i <= j < b ==> !(before[j] is Null && table[j - required] is Null)
            },
        decreases m - i,
    {
        let args_i = n - 1 - i;
        let defaults_i = m - 1 - i;
        if args[args_i].is_null() {
            if supplied.is_some() && defaults[defaults_i].is_null() {
                proof {
                    let b = supplied->Some_0 as int;
                    lemma_transmitted_len(before, required as int, b + 1);
                    assert(lacks_default(before, table, args_i as int));
                }
                return Some(args_i);
            }
        } else if supplied.is_none() {
            supplied = Some(args_i);
        }
        i += 1;
    }
    proof {
        match supplied {
            Some(b) => lemma_transmitted_len(before, required as int, b as int + 1),
            None => lemma_transmitted_len(before, required as int, required as int),
        }
    }
    None
}

/// A table of defaults suffices as soon as every optional argument whose
/// default is `null` is omitted only together with all arguments behind it.
pub proof fn lemma_defaults_suffice(args: Seq<Json>, defaults: Seq<Json>)
    requires
        defaults.len() <= args.len(),
        forall|i: int, j: int|
            args.len() - defaults.len() <= i < j < args.len() && args[i] is Null && defaults[i
                - (args.len() - defaults.len())] is Null ==> args[j] is Null,
    ensures
        defaults_suffice(args, defaults),
{
    let required = args.len() - defaults.len();
    lemma_transmitted_len_bounds(args, required);
    assert forall|i: int| !lacks_default(args, defaults, i) by {
        let len = transmitted_len(args, required);
        if lacks_default(args, defaults, i) {
            assert(i < len - 1 ==> args[len - 1] is Null);
        }
    }
}

/// `handle_defaults` for lists that nothing is known of: `None`, and `args`
/// untouched, where the table is longer than the list or an omitted
/// argument that would have to be filled has no default.
pub fn try_handle_defaults<'a, 'b>(
    args: &'a mut [Value],
    defaults: &'b [Value],
) -> (out: Option<&'a [Value]>)
    ensures
        out is Some <==> defaults.len() <= old(args).len() && defaults_suffice(
            wire(old(args)@),
            wire(defaults@),
        ),
        out matches Some(list) ==> wire(list@) == with_defaults(
            wire(old(args)@),
            wire(defaults@),
        ),
        out is None ==> final(args)@ == old(args)@,
{
    if defaults.len() > args.len() {
        return None;
    }
    if missing_default(args, defaults).is_some() {
        return None;
    }
    Some(handle_defaults(args, defaults))
}

} // verus!
