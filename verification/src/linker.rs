//! Back-reference linker: a zonefile stamps each zone it references with a
//! label whose value points back at the zonefile, so that changes to the zone
//! re-trigger reconciliation of the zonefile. The write is skipped when the
//! label already carries the desired value, which keeps the link idempotent
//! and avoids a write-triggers-watch-triggers-write livelock.

use vstd::prelude::*;

verus! {

/// The desired back-reference label value: `"<name>.<namespace>"` of the
/// zonefile that references the zone.
pub open spec fn backref_value_spec(name: Seq<char>, namespace: Seq<char>) -> Seq<char> {
    name + seq!['.'] + namespace
}

/// View of an optional owned string as an optional character sequence.
pub open spec fn opt_string_view(o: Option<String>) -> Option<Seq<char>> {
    match o {
        Some(s) => Some(s@),
        None => None,
    }
}

/// A label write is needed exactly when the current label value differs from
/// the desired one (including when no label is present at all).
pub open spec fn link_write_needed(current: Option<Seq<char>>, desired: Seq<char>) -> bool {
    current != Some(desired)
}

/// Builds the back-reference label value `"<name>.<namespace>"`.
pub fn backref_value(name: &str, namespace: &str) -> (r: String)
    ensures
        r@ == backref_value_spec(name@, namespace@),
{
    let mut s = name.to_owned();
    s.append(".");
    s.append(namespace);
    proof {
        reveal_strlit(".");
        assert("."@ =~= seq!['.']);
    }
    s
}

/// Decides whether the back-reference label must be written: only when the
/// zone's current label value is not already the desired value.
pub fn link_needed(current: Option<&String>, desired: &String) -> (r: bool)
    ensures
        r == link_write_needed(
            match current {
                Some(s) => Some(s@),
                None => None,
            },
            desired@,
        ),
{
    match current {
        None => true,
        Some(c) => !c.eq(desired),
    }
}

/// Law: stamping the back-reference twice with the same desired value issues
/// exactly one write. The first invocation writes exactly when the current
/// label differs from the desired value; once the label holds the desired
/// value, a further invocation with the same value issues no write.
pub proof fn lemma_link_idempotent(label: Option<Seq<char>>, name: Seq<char>, namespace: Seq<char>)
    ensures
        link_write_needed(label, backref_value_spec(name, namespace)) <==> label != Some(
            backref_value_spec(name, namespace),
        ),
        !link_write_needed(
            Some(backref_value_spec(name, namespace)),
            backref_value_spec(name, namespace),
        ),
{
}

} // verus!
