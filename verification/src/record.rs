//! Records that only grow.
//!
//! A bus and a front-end keep, as ghost state, a record of what they have
//! done. Whoever uses them adds to the record and never takes from it.
use vstd::prelude::*;

verus! {

/// `after` is `before` with more entries behind it.
pub open spec fn extends<A>(after: Seq<A>, before: Seq<A>) -> bool {
    after.len() >= before.len() && after.subrange(0, before.len() as int) == before
}

/// A record extends itself, one more entry extends what it extended, and
/// what extends an extension extends what that one extended.
pub proof fn lemma_extends<A>()
    ensures
        forall|log: Seq<A>| #[trigger] extends(log, log),
        forall|after: Seq<A>, before: Seq<A>, entry: A|
            extends(after, before) ==> #[trigger] extends(after.push(entry), before),
        forall|a: Seq<A>, b: Seq<A>, c: Seq<A>|
            #[trigger] extends(a, b) && #[trigger] extends(b, c) ==> extends(a, c),
{
    assert forall|log: Seq<A>| #[trigger] extends(log, log) by {
        assert(log.subrange(0, log.len() as int) =~= log);
    }
    assert forall|after: Seq<A>, before: Seq<A>, entry: A| extends(after, before) implies #[trigger]
    extends(after.push(entry), before) by {
        assert(after.push(entry).subrange(0, before.len() as int) =~= after.subrange(
            0,
            before.len() as int,
        ));
    }
    assert forall|a: Seq<A>, b: Seq<A>, c: Seq<A>| #[trigger] extends(a, b) && #[trigger] extends(
        b,
        c,
    ) implies extends(a, c) by {
        assert(a.subrange(0, c.len() as int) =~= a.subrange(0, b.len() as int).subrange(
            0,
            c.len() as int,
        ));
    }
}

/// What a record held stays where it was when the record grows.
pub proof fn lemma_extends_keeps<A>(after: Seq<A>, before: Seq<A>, i: int)
    requires
        extends(after, before),
        0 <= i < before.len(),
    ensures
        after[i] == before[i],
{
    assert(after.subrange(0, before.len() as int)[i] == after[i]);
}

} // verus!
