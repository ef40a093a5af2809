//! The register model.
//!
//! Each of the three roots keeps an ordered register of the entries known to
//! the daemon: app descriptors, catalogs descriptors, or pipe ids. This
//! module gives the mathematical transitions that every register mutation
//! follows, and the laws that hold of them. Removal swaps the entry with the
//! last one and truncates, so insertion order is not preserved across
//! removals; callers must not rely on it.

use vstd::prelude::*;
use vstd::seq_lib::group_to_multiset_ensures;

verus! {

/// The register after removing the first entry equal to `d`: that entry is
/// overwritten with the last one and the sequence is shortened by one.
pub open spec fn swap_remove_first<V>(reg: Seq<V>, d: V) -> Seq<V>
    recommends
        reg.contains(d),
{
    let i = reg.index_of_first(d)->Some_0;
    reg.update(i, reg.last()).drop_last()
}

/// The register after a pull of `d`: unchanged when `d` is already
/// registered (the pull is a no-op), else extended by `d`.
pub open spec fn pull_transition<V>(reg: Seq<V>, d: V) -> Seq<V> {
    if reg.contains(d) {
        reg
    } else {
        reg.push(d)
    }
}

/// The register after a remove of `d`: unchanged when `d` is not registered
/// (the remove is a no-op), else `d`'s first entry is swap-removed.
pub open spec fn remove_transition<V>(reg: Seq<V>, d: V) -> Seq<V> {
    if reg.contains(d) {
        swap_remove_first(reg, d)
    } else {
        reg
    }
}

/// How many entries of the register equal `d`.
pub open spec fn occurrences<V>(reg: Seq<V>, d: V) -> nat {
    reg.to_multiset().count(d)
}

/// Pull is idempotent: a second pull of the same entry is a no-op, and a
/// duplicate-free register holds exactly one entry for `d` after any number
/// of pulls of `d`.
pub proof fn lemma_pull_idempotent<V>(reg: Seq<V>, d: V)
    ensures
        pull_transition(pull_transition(reg, d), d) == pull_transition(reg, d),
        reg.no_duplicates() ==> occurrences(pull_transition(reg, d), d) == 1,
        reg.no_duplicates() ==> pull_transition(reg, d).no_duplicates(),
{
    broadcast use group_to_multiset_ensures;

    if reg.contains(d) {
        if reg.no_duplicates() {
            reg.lemma_multiset_has_no_duplicates();
        }
    } else {
        let pushed = reg.push(d);
        assert(pushed[reg.len() as int] == d);
        assert(pushed.contains(d));
        assert(reg.to_multiset().count(d) == 0);
        assert(pushed.to_multiset() =~= reg.to_multiset().insert(d));
        if reg.no_duplicates() {
            assert forall|i: int, j: int| 0 <= i < j < pushed.len() implies pushed[i] != pushed[j] by {
                if j < reg.len() {
                    assert(reg[i] != reg[j]);
                } else {
                    assert(pushed[j] == d);
                    assert(reg[i] == pushed[i]);
                    assert(reg.contains(reg[i]) ==> reg[i] != d) by {
                        if reg[i] == d {
                            assert(reg.contains(d));
                        }
                    }
                    assert(reg.contains(reg[i]));
                }
            }
        }
    }
}

/// A remove right after a pull undoes the pull: on a register that did not
/// hold `d`, pulling and then removing `d` gives back the very same
/// register; in any case the entry is registered after the pull and no
/// longer registered after the remove (on a duplicate-free register).
pub proof fn lemma_pull_then_remove<V>(reg: Seq<V>, d: V)
    requires
        reg.no_duplicates(),
    ensures
        pull_transition(reg, d).contains(d),
        !reg.contains(d) ==> remove_transition(pull_transition(reg, d), d) == reg,
        !remove_transition(pull_transition(reg, d), d).contains(d),
{
    let pulled = pull_transition(reg, d);
    if reg.contains(d) {
        lemma_swap_remove_first_drops(reg, d);
    } else {
        assert(pulled[reg.len() as int] == d);
        assert(pulled.contains(d));
        pulled.index_of_first_ensures(d);
        let i = pulled.index_of_first(d)->Some_0;
        assert forall|j: int| 0 <= j < reg.len() implies pulled[j] != d by {
            if pulled[j] == d {
                assert(reg[j] == d);
                assert(reg.contains(d));
            }
        }
        assert(i == reg.len());
        assert(pulled.update(i, pulled.last()) =~= pulled);
        assert(remove_transition(pulled, d) =~= reg);
        assert forall|j: int| 0 <= j < reg.len() implies reg[j] != d by {
            if reg[j] == d {
                assert(reg.contains(d));
            }
        }
    }
}

/// Swap-removing the first entry for `d` from a duplicate-free register
/// leaves a register without `d`, keeps every other entry, and never drops
/// an entry other than `d`.
pub proof fn lemma_swap_remove_first_drops<V>(reg: Seq<V>, d: V)
    requires
        reg.no_duplicates(),
        reg.contains(d),
    ensures
        !swap_remove_first(reg, d).contains(d),
        swap_remove_first(reg, d).no_duplicates(),
        swap_remove_first(reg, d).len() == reg.len() - 1,
        forall|e: V| reg.contains(e) && e != d ==> #[trigger] swap_remove_first(reg, d).contains(e),
        forall|e: V| #[trigger] swap_remove_first(reg, d).contains(e) ==> reg.contains(e) && e != d,
{
    reg.index_of_first_ensures(d);
    let i = reg.index_of_first(d)->Some_0;
    let out = swap_remove_first(reg, d);
    assert forall|j: int| 0 <= j < i implies reg[j] != d by {}
    assert forall|j: int| i < j < reg.len() implies reg[j] != d by {
        assert(reg[i] == d);
    }
    assert forall|j: int| 0 <= j < out.len() implies out[j] != d by {
        if j == i {
            assert(out[j] == reg[reg.len() - 1]);
        } else {
            assert(out[j] == reg[j]);
        }
    }
    assert forall|j: int, k: int| 0 <= j < k < out.len() implies out[j] != out[k] by {
        let oj: int = if j == i { reg.len() - 1 } else { j };
        let ok: int = if k == i { reg.len() - 1 } else { k };
        assert(out[j] == reg[oj]);
        assert(out[k] == reg[ok]);
        assert(oj != ok);
    }
    assert forall|e: V| reg.contains(e) && e != d implies #[trigger] out.contains(e) by {
        let j = choose|j: int| 0 <= j < reg.len() && reg[j] == e;
        if j < reg.len() - 1 {
            if j == i {
                assert(reg[i] == d);
            } else {
                assert(out[j] == e);
            }
        } else {
            if i == reg.len() - 1 {
                assert(reg[i] == d);
            } else {
                assert(out[i] == reg[reg.len() - 1]);
                assert(out[i] == e);
            }
        }
    }
    assert forall|e: V| #[trigger] out.contains(e) implies reg.contains(e) && e != d by {
        let j = choose|j: int| 0 <= j < out.len() && out[j] == e;
        if j == i {
            assert(reg[reg.len() - 1] == e);
        } else {
            assert(reg[j] == e);
        }
    }
}

/// Swap-removing the only entry of a register of length one leaves the
/// empty register (and in particular does not read past the end).
pub proof fn lemma_swap_remove_last_entry<V>(d: V)
    ensures
        swap_remove_first(seq![d], d) == Seq::<V>::empty(),
{
    let reg: Seq<V> = seq![d];
    assert(reg[0] == d);
    assert(reg.contains(d));
    reg.index_of_first_ensures(d);
    assert(reg.update(0, reg.last()) =~= reg);
    assert(swap_remove_first(reg, d) =~= Seq::<V>::empty());
}

} // verus!
