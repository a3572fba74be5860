//! Utilities for working with sets of participants.
//!
//! Protocols need a canonical ordering of their participants, one slot of
//! data per participant, and a way to notice when every participant has
//! contributed.

use vstd::prelude::*;
use crate::protocol::Participant;
use crate::scalars::{Scalar, scalar_from_u64, scalar_mul, scalar_sub, scalar_invert};
use crate::scalars::scalar_order;

verus! {

/// A strictly increasing sequence of participant identifiers.
pub open spec fn strictly_sorted(s: Seq<Participant>) -> bool {
    forall|i: int, j: int| 0 <= i < j < s.len() ==> s[i].0 < s[j].0
}

/// A sorted list of distinct participants.
///
/// Everybody who builds this list from the same set gets the same order, so
/// it can be hashed into a transcript.
#[derive(Debug)]
pub struct ParticipantList {
    participants: Vec<Participant>,
}

impl Clone for ParticipantList {
    fn clone(&self) -> (r: Self)
        ensures
            r.members() == self.members(),
    {
        proof {
            use_type_invariant(self);
        }
        let mut out: Vec<Participant> = Vec::new();
        let mut i: usize = 0;
        while i < self.participants.len()
            invariant
                i <= self.members().len(),
                out@ == self.members().subrange(0, i as int),
            decreases self.members().len() - i,
        {
            out.push(self.participants[i]);
            proof {
                assert(out@ =~= self.members().subrange(0, i + 1));
            }
            i = i + 1;
        }
        proof {
            assert(out@ =~= self.members());
        }
        ParticipantList { participants: out }
    }
}

impl ParticipantList {
    /// The participants, in increasing order of identifier.
    pub closed spec fn members(self) -> Seq<Participant> {
        self.participants@
    }

    /// Every held list is strictly sorted; with `use_type_invariant` this
    /// makes the ordering available wherever a list value is at hand.
    pub proof fn lemma_sorted(self)
        requires
            self.inv(),
        ensures
            strictly_sorted(self.members()),
    {
    }

    /// The list is strictly sorted, which also makes its members distinct.
    #[verifier::type_invariant]
    pub closed spec fn inv(self) -> bool {
        strictly_sorted(self.participants@)
    }

    /// Build a list from a slice of participants, sorting them.
    ///
    /// Returns `None` exactly when the input holds a duplicate.
    pub fn new(participants: &Vec<Participant>) -> (r: Option<ParticipantList>)
        ensures
            r is Some <==> (forall|i: int, j: int|
                0 <= i < j < participants@.len() ==> participants@[i] != participants@[j]),
            r matches Some(list) ==> list.members().to_set() == participants@.to_set()
                && list.members().len() == participants@.len()
                && strictly_sorted(list.members()),
    {
        let mut sorted: Vec<Participant> = Vec::new();
        let mut idx: usize = 0;
        let mut duplicate = false;
        while idx < participants.len()
            invariant
                idx <= participants@.len(),
                strictly_sorted(sorted@),
                !duplicate ==> sorted@.to_set() == participants@.subrange(0, idx as int).to_set(),
                !duplicate ==> sorted@.len() == idx,
                duplicate ==> (exists|i: int, j: int|
                    0 <= i < j < participants@.len() && participants@[i] == participants@[j]),
            decreases participants@.len() - idx,
        {
            if !duplicate {
                let p = participants[idx];
                let ghost pre = sorted@;
                let ghost pre_slice = participants@.subrange(0, idx as int);
                // Find the insertion position for p.
                let mut pos: usize = 0;
                while pos < sorted.len() && sorted[pos].0 < p.0
                    invariant
                        pos <= sorted@.len(),
                        strictly_sorted(sorted@),
                        forall|k: int| 0 <= k < pos ==> sorted@[k].0 < p.0,
                    decreases sorted@.len() - pos,
                {
                    pos = pos + 1;
                }
                if pos < sorted.len() && sorted[pos].0 == p.0 {
                    duplicate = true;
                    proof {
                        assert(pre.to_set().contains(pre[pos as int]));
                        assert(pre_slice.to_set().contains(pre[pos as int]));
                        let i = choose|i: int|
                            0 <= i < pre_slice.len() && pre_slice[i] == pre[pos as int];
                        assert(participants@[i] == pre[pos as int]);
                        assert(pre[pos as int].0 == p.0);
                        assert(participants@[i] == p) by {
                            assert(participants@[i].0 == p.0);
                        }
                        assert(participants@[idx as int] == p);
                    }
                } else {
                    sorted.insert(pos, p);
                    proof {
                        assert(forall|k: int| 0 <= k < pos ==> sorted@[k] == pre[k]);
                        assert(forall|k: int|
                            pos < k < sorted@.len() ==> sorted@[k] == pre[k - 1]);
                        assert(sorted@[pos as int] == p);
                        assert(forall|k: int| pos < k < sorted@.len() ==> p.0 < sorted@[k].0)
                            by {
                            assert(forall|k: int|
                                pos <= k < pre.len() ==> pre[k].0 > p.0 || pre[k].0 == p.0
                                    || pre[k].0 < p.0);
                            assert(pos < pre.len() ==> pre[pos as int].0 != p.0);
                            assert(forall|k: int| pos <= k < pre.len() ==> pre[k].0 >= p.0);
                            assert(forall|k: int| pos <= k < pre.len() ==> pre[k].0 != p.0);
                        }
                        assert(strictly_sorted(sorted@));
                        assert(sorted@.to_set() =~= pre.to_set().insert(p)) by {
                            assert forall|x: Participant| sorted@.to_set().contains(x)
                                implies pre.to_set().insert(p).contains(x) by {
                                let k = choose|k: int|
                                    0 <= k < sorted@.len() && sorted@[k] == x;
                                if k < pos {
                                    assert(pre[k] == x);
                                } else if k == pos {
                                } else {
                                    assert(pre[k - 1] == x);
                                }
                            }
                            assert forall|x: Participant| pre.to_set().insert(p).contains(x)
                                implies sorted@.to_set().contains(x) by {
                                if x == p {
                                    assert(sorted@[pos as int] == x);
                                } else {
                                    let k = choose|k: int| 0 <= k < pre.len() && pre[k] == x;
                                    if k < pos {
                                        assert(sorted@[k] == x);
                                    } else {
                                        assert(sorted@[k + 1] == x);
                                    }
                                }
                            }
                        }
                        assert(participants@.subrange(0, idx + 1).drop_last()
                            =~= pre_slice);
                        assert(participants@.subrange(0, idx + 1).last() == p);
                        lemma_to_set_push(participants@.subrange(0, idx + 1), pre_slice, p);
                    }
                }
            }
            idx = idx + 1;
        }
        if duplicate {
            return None;
        }
        proof {
            assert(participants@.subrange(0, participants@.len() as int) =~= participants@);
            // Distinctness of the input follows from the sorted copy: it has the
            // same length and the same set of members, and its members are
            // distinct because they are strictly sorted.
            if exists|i: int, j: int|
                0 <= i < j < participants@.len() && participants@[i] == participants@[j] {
                let (i, j) = choose|i: int, j: int|
                    0 <= i < j < participants@.len() && participants@[i] == participants@[j];
                lemma_dup_set_smaller(participants@, i, j);
                lemma_sorted_set_len(sorted@);
            }
        }
        Some(ParticipantList { participants: sorted })
    }

    /// How many participants there are.
    pub fn len(&self) -> (r: usize)
        ensures
            r == self.members().len(),
    {
        self.participants.len()
    }

    /// Whether this list has a given participant.
    pub fn contains(&self, participant: Participant) -> (r: bool)
        ensures
            r == self.members().contains(participant),
    {
        proof {
            use_type_invariant(self);
        }
        let mut i: usize = 0;
        while i < self.participants.len()
            invariant
                i <= self.members().len(),
                forall|k: int| 0 <= k < i ==> self.members()[k] != participant,
            decreases self.members().len() - i,
        {
            if self.participants[i].0 == participant.0 {
                proof {
                    assert(self.members()[i as int] == participant);
                }
                return true;
            }
            i = i + 1;
        }
        proof {
            if self.members().contains(participant) {
                let k = choose|k: int|
                    0 <= k < self.members().len() && self.members()[k] == participant;
            }
        }
        false
    }

    /// The participant at a position of the sorted order.
    pub fn get(&self, i: usize) -> (r: Participant)
        requires
            i < self.members().len(),
        ensures
            r == self.members()[i as int],
    {
        self.participants[i]
    }

    /// All participants other than `me`, in sorted order: every member but
    /// `me`, so one fewer than the member count exactly when `me` is a
    /// member.
    pub fn others(&self, me: Participant) -> (r: Vec<Participant>)
        ensures
            r@ == self.members().filter(|p: Participant| p != me),
            strictly_sorted(r@),
            r@.len() == self.members().len()
                - (if self.members().contains(me) { 1int } else { 0int }),
    {
        proof {
            use_type_invariant(self);
        }
        let mut out: Vec<Participant> = Vec::new();
        let mut i: usize = 0;
        while i < self.participants.len()
            invariant
                i <= self.members().len(),
                out@ == self.members().subrange(0, i as int).filter(
                    |p: Participant| p != me),
            decreases self.members().len() - i,
        {
            let ghost pre = self.members().subrange(0, i as int);
            let p = self.participants[i];
            if p != me {
                out.push(p);
            }
            proof {
                assert(self.members().subrange(0, i + 1).drop_last() =~= pre);
                assert(self.members().subrange(0, i + 1).last()
                    == self.members()[i as int]);
                reveal_with_fuel(Seq::filter, 2);
            }
            i = i + 1;
        }
        proof {
            assert(self.members().subrange(0, self.members().len() as int)
                =~= self.members());
            lemma_filter_sorted(self.members(), |p: Participant| p != me);
            lemma_filter_ne_count(self.members(), me);
        }
        out
    }

    /// The position of a participant in the sorted order.
    pub fn index(&self, participant: Participant) -> (r: usize)
        requires
            self.members().contains(participant),
        ensures
            r < self.members().len(),
            self.members()[r as int] == participant,
    {
        proof {
            use_type_invariant(self);
        }
        let mut i: usize = 0;
        while i < self.participants.len()
            invariant
                self.members().contains(participant),
                i <= self.members().len(),
                forall|k: int| 0 <= k < i ==> self.members()[k] != participant,
            decreases self.members().len() - i,
        {
            if self.participants[i].0 == participant.0 {
                proof {
                    assert(self.members()[i as int] == participant);
                }
                return i;
            }
            i = i + 1;
        }
        proof {
            let k = choose|k: int|
                0 <= k < self.members().len() && self.members()[k] == participant;
            assert(false);
        }
        0
    }

    /// The members of this list that are also members of another list.
    pub fn intersection(&self, others: &ParticipantList) -> (r: ParticipantList)
        ensures
            r.members() == self.members().filter(
                |p: Participant| others.members().contains(p)),
            strictly_sorted(r.members()),
            r.members().len() == self.members().to_set().intersect(
                others.members().to_set()).len(),
            r.members().len() <= self.members().len(),
            r.members().len() <= others.members().len(),
    {
        proof {
            use_type_invariant(self);
            use_type_invariant(others);
        }
        let mut out: Vec<Participant> = Vec::new();
        let mut i: usize = 0;
        while i < self.participants.len()
            invariant
                i <= self.members().len(),
                strictly_sorted(self.members()),
                out@ == self.members().subrange(0, i as int).filter(
                    |p: Participant| others.members().contains(p)),
            decreases self.members().len() - i,
        {
            let ghost pre = self.members().subrange(0, i as int);
            let p = self.participants[i];
            if others.contains(p) {
                out.push(p);
            }
            proof {
                assert(self.members().subrange(0, i + 1).drop_last() =~= pre);
                assert(self.members().subrange(0, i + 1).last()
                    == self.members()[i as int]);
                reveal_with_fuel(Seq::filter, 2);
            }
            i = i + 1;
        }
        proof {
            assert(self.members().subrange(0, self.members().len() as int)
                =~= self.members());
            let pred = |p: Participant| others.members().contains(p);
            lemma_filter_sorted(self.members(), pred);
            lemma_filter_subset(self.members(), pred);
            let fs = self.members().filter(pred);
            lemma_sorted_set_len(fs);
            assert(fs.to_set() =~= self.members().to_set().intersect(
                others.members().to_set())) by {
                broadcast use vstd::seq_lib::group_filter_ensures;

                assert forall|x: Participant| fs.to_set().contains(x)
                    implies self.members().to_set().intersect(
                        others.members().to_set()).contains(x) by {
                    let k = choose|k: int| 0 <= k < fs.len() && fs[k] == x;
                    assert(self.members().contains(fs[k]));
                    assert(pred(fs[k]));
                    let m = choose|m: int|
                        0 <= m < others.members().len() && others.members()[m] == x;
                }
                assert forall|x: Participant| self.members().to_set().intersect(
                        others.members().to_set()).contains(x)
                    implies fs.to_set().contains(x) by {
                    let m = choose|m: int|
                        0 <= m < self.members().len() && self.members()[m] == x;
                    assert(pred(self.members()[m]));
                    assert(fs.contains(self.members()[m]));
                }
            }
            // The result is no larger than either input: its set is a
            // subset of both member sets, whose sizes are the lengths.
            lemma_sorted_set_len(self.members());
            lemma_sorted_set_len(others.members());
            vstd::set_lib::lemma_len_subset(fs.to_set(), self.members().to_set());
            vstd::set_lib::lemma_len_subset(fs.to_set(), others.members().to_set());
            assert(fs.to_set().subset_of(self.members().to_set()));
            assert(fs.to_set().subset_of(others.members().to_set()));
        }
        ParticipantList { participants: out }
    }

    /// The Lagrange coefficient of `p` for interpolating at zero, relative
    /// to this list: the product over the other members `q` of
    /// `q_s / (q_s - p_s)`, where `x_s` is the scalar of participant `x`.
    ///
    /// The result `r` satisfies `r * den = num` in the scalar field, where
    /// `num` is the product of the other members' scalars and `den` the
    /// product of their differences to `p`'s scalar. When `den` is zero in
    /// the field — which distinct members rule out in fact, the group order
    /// being prime, though primality lies outside this model — the zero
    /// scalar is returned instead.
    pub fn lagrange(&self, p: Participant) -> (r: Scalar)
        ensures
            lagrange_den(self.members(), p) % scalar_order() != 0
                ==> (r.value() * lagrange_den(self.members(), p)) % scalar_order()
                    == lagrange_num(self.members(), p) % scalar_order(),
            lagrange_den(self.members(), p) % scalar_order() == 0 ==> r.value() == 0,
    {
        proof {
            use_type_invariant(self);
        }
        let p_scalar = p.scalar();
        let mut top = scalar_from_u64(1);
        let mut bot = scalar_from_u64(1);
        let mut i: usize = 0;
        proof {
            assert(self.members().subrange(0, 0) =~= Seq::<Participant>::empty());
            vstd::arithmetic::div_mod::lemma_small_mod(1nat, scalar_order());
        }
        while i < self.participants.len()
            invariant
                i <= self.members().len(),
                p_scalar.value() == p.0 + 1,
                top.value() == lagrange_num(self.members().subrange(0, i as int), p)
                    % scalar_order(),
                bot.value() == lagrange_den(self.members().subrange(0, i as int), p)
                    % scalar_order(),
            decreases self.members().len() - i,
        {
            let ghost pre = self.members().subrange(0, i as int);
            let q = self.participants[i];
            proof {
                assert(self.members().subrange(0, i + 1).drop_last() =~= pre);
                assert(self.members().subrange(0, i + 1).last()
                    == self.members()[i as int]);
            }
            if q.0 != p.0 {
                let q_scalar = q.scalar();
                let ghost old_top = top;
                let ghost old_bot = bot;
                let diff = scalar_sub(&q_scalar, &p_scalar);
                top = scalar_mul(&top, &q_scalar);
                bot = scalar_mul(&bot, &diff);
                proof {
                    lemma_mul_mod_step(old_top.value(), q_scalar.value(),
                        lagrange_num(pre, p));
                    lemma_sub_rep((q.0 + 1) as nat, (p.0 + 1) as nat, diff.value());
                    lemma_mul_mod_step(old_bot.value(), diff.value(),
                        lagrange_den(pre, p));
                }
            } else {
                proof {
                    assert(self.members()[i as int] == p) by {
                        assert(self.members()[i as int].0 == p.0);
                    }
                }
            }
            i = i + 1;
        }
        proof {
            assert(self.members().subrange(0, self.members().len() as int)
                =~= self.members());
        }
        match scalar_invert(&bot) {
            Some(bot_inv) => {
                let r = scalar_mul(&top, &bot_inv);
                proof {
                    lemma_lagrange_final(top.value(), bot.value(), bot_inv.value(),
                        r.value(), lagrange_num(self.members(), p),
                        lagrange_den(self.members(), p));
                }
                r
            }
            None => scalar_from_u64(0),
        }
    }
}

/// The product, modulo nothing, of the scalars of the members other than `p`.
pub open spec fn lagrange_num(s: Seq<Participant>, p: Participant) -> nat
    decreases s.len(),
{
    if s.len() == 0 {
        1
    } else if s.last() == p {
        lagrange_num(s.drop_last(), p)
    } else {
        (lagrange_num(s.drop_last(), p) * (s.last().0 + 1)) as nat
    }
}

/// The product of the field differences `q_s - p_s` over members `q != p`.
pub open spec fn lagrange_den(s: Seq<Participant>, p: Participant) -> nat
    decreases s.len(),
{
    if s.len() == 0 {
        1
    } else if s.last() == p {
        lagrange_den(s.drop_last(), p)
    } else {
        (lagrange_den(s.drop_last(), p) * sub_mod((s.last().0 + 1) as nat,
            (p.0 + 1) as nat)) as nat
    }
}

/// The field difference `a - b` of two values below the order.
pub open spec fn sub_mod(a: nat, b: nat) -> nat {
    ((a + scalar_order() - b) % (scalar_order() as int)) as nat
}

proof fn lemma_to_set_push(s: Seq<Participant>, pre: Seq<Participant>, p: Participant)
    requires
        s.len() > 0,
        s.drop_last() == pre,
        s.last() == p,
    ensures
        s.to_set() == pre.to_set().insert(p),
{
    assert(s.to_set() =~= pre.to_set().insert(p)) by {
        assert forall|x: Participant| s.to_set().contains(x)
            implies pre.to_set().insert(p).contains(x) by {
            let k = choose|k: int| 0 <= k < s.len() && s[k] == x;
            if k < s.len() - 1 {
                assert(pre[k] == x);
            }
        }
        assert forall|x: Participant| pre.to_set().insert(p).contains(x)
            implies s.to_set().contains(x) by {
            if x == p {
                assert(s[s.len() - 1] == x);
            } else {
                let k = choose|k: int| 0 <= k < pre.len() && pre[k] == x;
                assert(s[k] == x);
            }
        }
    }
}

/// A sequence with a duplicate has a set strictly smaller than its length.
proof fn lemma_dup_set_smaller(s: Seq<Participant>, i: int, j: int)
    requires
        0 <= i < j < s.len(),
        s[i] == s[j],
    ensures
        s.to_set().len() < s.len(),
{
    let dropped = s.remove(j);
    assert(dropped.to_set() =~= s.to_set()) by {
        assert forall|x: Participant| s.to_set().contains(x)
            implies dropped.to_set().contains(x) by {
            let k = choose|k: int| 0 <= k < s.len() && s[k] == x;
            if k < j {
                assert(dropped[k] == x);
            } else if k > j {
                assert(dropped[k - 1] == x);
            } else {
                assert(dropped[i] == x);
            }
        }
        assert forall|x: Participant| dropped.to_set().contains(x)
            implies s.to_set().contains(x) by {
            let k = choose|k: int| 0 <= k < dropped.len() && dropped[k] == x;
            if k < j {
                assert(s[k] == x);
            } else {
                assert(s[k + 1] == x);
            }
        }
    }
    lemma_set_len_le(dropped);
    assert(s.to_set().len() <= dropped.len());
}

/// The set of a sequence has at most the sequence's length.
proof fn lemma_set_len_le(s: Seq<Participant>)
    ensures
        s.to_set().len() <= s.len(),
    decreases s.len(),
{
    if s.len() > 0 {
        lemma_set_len_le(s.drop_last());
        lemma_to_set_push(s, s.drop_last(), s.last());
        vstd::set_lib::lemma_len_subset(s.drop_last().to_set(),
            s.drop_last().to_set().insert(s.last()));
    } else {
        assert(s.to_set() =~= Set::empty());
    }
}

/// A strictly sorted sequence has as many set members as elements.
proof fn lemma_sorted_set_len(s: Seq<Participant>)
    requires
        strictly_sorted(s),
    ensures
        s.to_set().len() == s.len(),
    decreases s.len(),
{
    if s.len() > 0 {
        lemma_sorted_set_len(s.drop_last());
        lemma_to_set_push(s, s.drop_last(), s.last());
        assert(!s.drop_last().to_set().contains(s.last())) by {
            if s.drop_last().to_set().contains(s.last()) {
                let k = choose|k: int|
                    0 <= k < s.drop_last().len() && s.drop_last()[k] == s.last();
                assert(s[k] == s[s.len() - 1]);
            }
        }
    } else {
        assert(s.to_set() =~= Set::empty());
    }
}

/// Every element of a filtered sequence occurs in the original.
pub proof fn lemma_filter_subset(s: Seq<Participant>, f: spec_fn(Participant) -> bool)
    ensures
        forall|k: int| 0 <= k < s.filter(f).len() ==> s.contains(#[trigger] s.filter(f)[k]),
    decreases s.len(),
{
    reveal(Seq::filter);
    if s.len() > 0 {
        lemma_filter_subset(s.drop_last(), f);
        let pre = s.drop_last().filter(f);
        assert forall|k: int| 0 <= k < s.filter(f).len()
            implies s.contains(#[trigger] s.filter(f)[k]) by {
            if k < pre.len() {
                assert(s.drop_last().contains(pre[k]));
                let m = choose|m: int|
                    0 <= m < s.drop_last().len() && s.drop_last()[m] == pre[k];
                assert(s[m] == pre[k]);
            } else {
                assert(s.filter(f)[k] == s.last());
                assert(s[s.len() - 1] == s.last());
            }
        }
    }
}

/// Removing one participant from a strictly sorted sequence shrinks the
/// filter by one exactly when the participant occurs.
proof fn lemma_filter_ne_count(s: Seq<Participant>, me: Participant)
    requires
        strictly_sorted(s),
    ensures
        s.filter(|p: Participant| p != me).len()
            == s.len() - (if s.contains(me) { 1int } else { 0int }),
    decreases s.len(),
{
    reveal(Seq::filter);
    if s.len() > 0 {
        lemma_filter_sorted(s.drop_last(), |p: Participant| p != me);
        lemma_filter_ne_count(s.drop_last(), me);
        if s.last() == me {
            // A strictly sorted sequence holds `me` nowhere else.
            assert(!s.drop_last().contains(me)) by {
                if s.drop_last().contains(me) {
                    let k = choose|k: int|
                        0 <= k < s.drop_last().len() && s.drop_last()[k] == me;
                    assert(s[k] == s[s.len() - 1]);
                }
            }
            assert(s.contains(me)) by {
                assert(s[s.len() - 1] == me);
            }
        } else {
            assert(s.contains(me) == s.drop_last().contains(me)) by {
                if s.contains(me) {
                    let k = choose|k: int| 0 <= k < s.len() && s[k] == me;
                    assert(s.drop_last()[k] == me);
                }
                if s.drop_last().contains(me) {
                    let k = choose|k: int|
                        0 <= k < s.drop_last().len() && s.drop_last()[k] == me;
                    assert(s[k] == me);
                }
            }
        }
    }
}

/// Filtering preserves strict sortedness.
proof fn lemma_filter_sorted(s: Seq<Participant>, f: spec_fn(Participant) -> bool)
    requires
        strictly_sorted(s),
    ensures
        strictly_sorted(s.filter(f)),
    decreases s.len(),
{
    reveal(Seq::filter);
    if s.len() > 0 {
        lemma_filter_sorted(s.drop_last(), f);
        lemma_filter_subset(s.drop_last(), f);
        let pre = s.drop_last().filter(f);
        if f(s.last()) {
            assert(s.filter(f) == pre.push(s.last()));
            assert forall|k: int| 0 <= k < pre.len() implies pre[k].0 < s.last().0 by {
                assert(s.drop_last().contains(pre[k]));
                let m = choose|m: int|
                    0 <= m < s.drop_last().len() && s.drop_last()[m] == pre[k];
                assert(s[m] == pre[k]);
            }
        }
    }
}

proof fn lemma_mul_mod_step(acc: nat, x: nat, prior: nat)
    requires
        acc == prior % scalar_order(),
        x < scalar_order(),
    ensures
        (acc * x) % scalar_order() == (prior * (x % scalar_order())) % scalar_order(),
{
    let n = scalar_order() as int;
    let a = acc as int;
    let p = prior as int;
    let xi = x as int;
    assert(xi % n == xi);
    assert((a * xi) % n == (p * xi) % n) by {
        assert(a == p % n);
        vstd::arithmetic::div_mod::lemma_mul_mod_noop_left(p, xi, n);
    }
}

proof fn lemma_sub_rep(q: nat, p: nat, d: nat)
    requires
        (d + p) % scalar_order() == q % scalar_order(),
        d < scalar_order(),
    ensures
        d == sub_mod(q % scalar_order(), p % scalar_order()),
{
    let n = scalar_order() as int;
    let qi = (q % scalar_order()) as int;
    let pi = (p % scalar_order()) as int;
    let di = d as int;
    assert((di + p) % n == qi) by {
        vstd::arithmetic::div_mod::lemma_mod_twice(q as int, n);
    }
    assert((di + pi) % n == qi) by {
        vstd::arithmetic::div_mod::lemma_add_mod_noop(di, p as int, n);
        vstd::arithmetic::div_mod::lemma_mod_twice(p as int, n);
        vstd::arithmetic::div_mod::lemma_add_mod_noop(di, pi, n);
    }
    assert((qi + n - pi) % n == di) by {
        vstd::arithmetic::div_mod::lemma_mod_sub_multiples_vanish((di + pi) - n, n);
        assert((di + pi) % n == ((di + pi) - n) % n);
        if di + pi < n {
            vstd::arithmetic::div_mod::lemma_small_mod((di + pi) as nat, n as nat);
            assert(qi == di + pi);
            vstd::arithmetic::div_mod::lemma_small_mod(di as nat, n as nat);
        } else {
            vstd::arithmetic::div_mod::lemma_small_mod((di + pi - n) as nat, n as nat);
            assert(qi == di + pi - n);
            vstd::arithmetic::div_mod::lemma_small_mod(di as nat, n as nat);
        }
    }
}

proof fn lemma_lagrange_final(top: nat, bot: nat, bot_inv: nat, r: nat, num: nat, den: nat)
    requires
        top == num % scalar_order(),
        bot == den % scalar_order(),
        (bot_inv * bot) % scalar_order() == 1,
        r == (top * bot_inv) % scalar_order(),
    ensures
        (r * den) % scalar_order() == num % scalar_order(),
{
    let n = scalar_order() as int;
    let t = top as int;
    let b = bot as int;
    let bi = bot_inv as int;
    let ri = r as int;
    let d = den as int;
    let m = num as int;
    assert((ri * d) % n == ((t * bi) * d) % n) by {
        vstd::arithmetic::div_mod::lemma_mul_mod_noop_left(t * bi, d, n);
    }
    assert((t * bi) * d == t * (bi * d)) by {
        vstd::arithmetic::mul::lemma_mul_is_associative(t, bi, d);
    }
    assert((t * (bi * d)) % n == (t * ((bi * d) % n)) % n) by {
        vstd::arithmetic::div_mod::lemma_mul_mod_noop_right(t, bi * d, n);
    }
    assert((bi * d) % n == (bi * b) % n) by {
        vstd::arithmetic::div_mod::lemma_mul_mod_noop_right(bi, d, n);
        assert(d % n == b) by {
            vstd::arithmetic::div_mod::lemma_mod_twice(d, n);
        }
        vstd::arithmetic::div_mod::lemma_mul_mod_noop_right(bi, b, n);
    }
    assert((t * ((bi * b) % n)) % n == (t * 1) % n);
    assert((t * 1) % n == m % n) by {
        vstd::arithmetic::div_mod::lemma_mod_twice(m, n);
    }
}

/// One slot of data per participant in a list, tracking which slots are
/// filled.
#[derive(Debug)]
pub struct ParticipantMap<T> {
    list: ParticipantList,
    data: Vec<Option<T>>,
}

impl<T> ParticipantMap<T> {
    /// The list this map is indexed by.
    pub closed spec fn members(self) -> Seq<Participant> {
        self.list.members()
    }

    /// The slots, one per member, in member order.
    pub closed spec fn slots(self) -> Seq<Option<T>> {
        self.data@
    }

    /// An empty map over a list of participants.
    pub fn new(participants: &ParticipantList) -> (r: Self)
        ensures
            r.members() == participants.members(),
            r.slots().len() == participants.members().len(),
            forall|k: int| 0 <= k < r.slots().len() ==> r.slots()[k] is None,
    {
        let size = participants.len();
        let mut data: Vec<Option<T>> = Vec::new();
        let mut i: usize = 0;
        while i < size
            invariant
                i <= size,
                data@.len() == i,
                forall|k: int| 0 <= k < i ==> data@[k] is None,
            decreases size - i,
        {
            data.push(None);
            i = i + 1;
        }
        ParticipantMap { list: participants.clone(), data }
    }

    /// Whether the map has a slot for every member and every slot is full.
    pub fn full(&self) -> (r: bool)
        ensures
            r == (self.slots().len() == self.members().len()
                && forall|k: int| 0 <= k < self.slots().len()
                    ==> self.slots()[k] is Some),
    {
        if self.data.len() != self.list.len() {
            return false;
        }
        let mut i: usize = 0;
        while i < self.data.len()
            invariant
                i <= self.data@.len(),
                forall|k: int| 0 <= k < i ==> self.data@[k] is Some,
            decreases self.data@.len() - i,
        {
            if self.data[i].is_none() {
                proof {
                    assert(self.slots()[i as int] is None);
                }
                return false;
            }
            i = i + 1;
        }
        true
    }

    /// Record a participant's value.
    ///
    /// Does nothing when the participant is unknown or already has a value.
    pub fn put(&mut self, participant: Participant, value: T)
        ensures
            final(self).members() == old(self).members(),
            ({
                let idx = old(self).members().index_of(participant);
                if old(self).members().contains(participant)
                    && idx < old(self).slots().len()
                    && old(self).slots()[idx] is None {
                    final(self).slots() == old(self).slots().update(idx, Some(value))
                } else {
                    final(self).slots() == old(self).slots()
                }
            }),
    {
        if !self.list.contains(participant) {
            return;
        }
        let i = self.list.index(participant);
        proof {
            use_type_invariant(&self.list);
            lemma_sorted_index_unique(self.list.members(), i as int,
                self.list.members().index_of(participant), participant);
        }
        if i >= self.data.len() {
            return;
        }
        if self.data[i].is_some() {
            return;
        }
        self.data.set(i, Some(value));
    }

    /// The value a member put in, if any.
    pub fn get(&self, participant: Participant) -> (r: Option<&T>)
        ensures
            ({
                let idx = self.members().index_of(participant);
                if self.members().contains(participant) && idx < self.slots().len() {
                    r == (match self.slots()[idx] {
                        Some(v) => Some(&v),
                        None => None::<&T>,
                    })
                } else {
                    r is None
                }
            }),
    {
        if !self.list.contains(participant) {
            return None;
        }
        let i = self.list.index(participant);
        proof {
            use_type_invariant(&self.list);
            lemma_sorted_index_unique(self.list.members(), i as int,
                self.list.members().index_of(participant), participant);
        }
        if i >= self.data.len() {
            return None;
        }
        self.data[i].as_ref()
    }
}

/// In a strictly sorted sequence, positions holding one participant agree.
proof fn lemma_sorted_index_unique(s: Seq<Participant>, i: int, j: int, p: Participant)
    requires
        strictly_sorted(s),
        0 <= i < s.len(),
        0 <= j < s.len(),
        s[i] == p,
        s[j] == p,
    ensures
        i == j,
{
}

/// Tracks which participants have been seen, to process each sender's first
/// message only.
#[derive(Debug)]
pub struct ParticipantCounter {
    list: ParticipantList,
    seen: Vec<bool>,
}

impl ParticipantCounter {
    /// The list this counter is indexed by.
    pub closed spec fn members(self) -> Seq<Participant> {
        self.list.members()
    }

    /// Which members have been seen, in member order.
    pub closed spec fn seen_slots(self) -> Seq<bool> {
        self.seen@
    }

    /// A counter over a list of participants, with nobody seen yet.
    pub fn new(participants: &ParticipantList) -> (r: Self)
        ensures
            r.members() == participants.members(),
            r.seen_slots().len() == participants.members().len(),
            forall|k: int| 0 <= k < r.seen_slots().len() ==> !r.seen_slots()[k],
    {
        let size = participants.len();
        let mut seen: Vec<bool> = Vec::new();
        let mut i: usize = 0;
        while i < size
            invariant
                i <= size,
                seen@.len() == i,
                forall|k: int| 0 <= k < i ==> !seen@[k],
            decreases size - i,
        {
            seen.push(false);
            i = i + 1;
        }
        ParticipantCounter { list: participants.clone(), seen }
    }

    /// Record a participant; true exactly when they are a member with a
    /// slot who was not seen before.
    pub fn put(&mut self, participant: Participant) -> (r: bool)
        ensures
            final(self).members() == old(self).members(),
            ({
                let idx = old(self).members().index_of(participant);
                if old(self).members().contains(participant)
                    && idx < old(self).seen_slots().len() {
                    r == !old(self).seen_slots()[idx]
                        && final(self).seen_slots()
                            == old(self).seen_slots().update(idx, true)
                } else {
                    !r && final(self).seen_slots() == old(self).seen_slots()
                }
            }),
    {
        if !self.list.contains(participant) {
            return false;
        }
        let i = self.list.index(participant);
        proof {
            use_type_invariant(&self.list);
            lemma_sorted_index_unique(self.list.members(), i as int,
                self.list.members().index_of(participant), participant);
        }
        if i >= self.seen.len() {
            return false;
        }
        let was_seen = self.seen[i];
        self.seen.set(i, true);
        proof {
            if was_seen {
                assert(final(self).seen_slots() =~= old(self).seen_slots().update(
                    old(self).members().index_of(participant), true));
            }
        }
        !was_seen
    }

    /// Forget everybody.
    pub fn clear(&mut self)
        ensures
            final(self).members() == old(self).members(),
            final(self).seen_slots().len() == old(self).seen_slots().len(),
            forall|k: int| 0 <= k < final(self).seen_slots().len()
                ==> !final(self).seen_slots()[k],
    {
        let n = self.seen.len();
        let mut i: usize = 0;
        while i < n
            invariant
                i <= n,
                self.seen@.len() == n,
                self.list == old(self).list,
                forall|k: int| 0 <= k < i ==> !self.seen@[k],
            decreases n - i,
        {
            self.seen.set(i, false);
            i = i + 1;
        }
    }

    /// Whether the counter has a slot for every member and all are seen.
    pub fn full(&self) -> (r: bool)
        ensures
            r == (self.seen_slots().len() == self.members().len()
                && forall|k: int| 0 <= k < self.seen_slots().len()
                    ==> self.seen_slots()[k]),
    {
        if self.seen.len() != self.list.len() {
            return false;
        }
        let mut i: usize = 0;
        while i < self.seen.len()
            invariant
                i <= self.seen@.len(),
                forall|k: int| 0 <= k < i ==> self.seen@[k],
            decreases self.seen@.len() - i,
        {
            if !self.seen[i] {
                proof {
                    assert(!self.seen_slots()[i as int]);
                }
                return false;
            }
            i = i + 1;
        }
        true
    }
}

} // verus!
