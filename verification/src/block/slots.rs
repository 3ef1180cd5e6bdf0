//! Player slots of lobbies and parties: each slot is empty or holds the
//! connection ID of a player. The slot index is the player's client ID
//! inside the lobby or party.

use vstd::prelude::*;

verus! {

/// The number of occupied slots from index `k` on.
pub open spec fn count_from(m: Seq<Option<usize>>, k: int) -> nat
    decreases m.len() - k,
{
    if k < 0 || k >= m.len() {
        0
    } else {
        (if m[k] is Some { 1nat } else { 0nat }) + count_from(m, k + 1)
    }
}

/// The number of occupied slots.
pub open spec fn occupied(m: Seq<Option<usize>>) -> nat {
    count_from(m, 0)
}

/// The lowest empty slot from index `k` on.
pub open spec fn first_empty_from(m: Seq<Option<usize>>, k: int) -> Option<int>
    decreases m.len() - k,
{
    if k < 0 || k >= m.len() {
        None
    } else if m[k] is None {
        Some(k)
    } else {
        first_empty_from(m, k + 1)
    }
}

/// The lowest empty slot.
pub open spec fn first_empty(m: Seq<Option<usize>>) -> Option<int> {
    first_empty_from(m, 0)
}

/// The lowest slot from index `k` on that holds `player`.
pub open spec fn slot_of_from(m: Seq<Option<usize>>, player: usize, k: int) -> Option<int>
    decreases m.len() - k,
{
    if k < 0 || k >= m.len() {
        None
    } else if m[k] == Some(player) {
        Some(k)
    } else {
        slot_of_from(m, player, k + 1)
    }
}

/// The lowest slot that holds `player`.
pub open spec fn slot_of(m: Seq<Option<usize>>, player: usize) -> Option<int> {
    slot_of_from(m, player, 0)
}

/// The lowest slot from index `k` on that holds a player other than
/// `player`.
pub open spec fn first_other_from(m: Seq<Option<usize>>, player: usize, k: int) -> Option<int>
    decreases m.len() - k,
{
    if k < 0 || k >= m.len() {
        None
    } else if m[k] is Some && m[k] != Some(player) {
        Some(k)
    } else {
        first_other_from(m, player, k + 1)
    }
}

/// The lowest slot that holds a player other than `player`.
pub open spec fn first_other(m: Seq<Option<usize>>, player: usize) -> Option<int> {
    first_other_from(m, player, 0)
}

/// Some slot holds `player`.
pub open spec fn holds(m: Seq<Option<usize>>, player: usize) -> bool {
    exists|i: int| 0 <= i < m.len() && m[i] == Some(player)
}

/// The players that a broadcast from `sent_by` reaches, in slot order:
/// every occupied slot's player, except `sent_by`'s.
pub open spec fn recipients_from(m: Seq<Option<usize>>, sent_by: Option<usize>, k: int) -> Seq<usize>
    decreases m.len() - k,
{
    if k < 0 || k >= m.len() {
        Seq::empty()
    } else {
        let rest = recipients_from(m, sent_by, k + 1);
        match m[k] {
            Some(c) => if sent_by == Some(c) { rest } else { seq![c] + rest },
            None => rest,
        }
    }
}

/// The players that a broadcast from `sent_by` reaches, in slot order.
pub open spec fn recipients(m: Seq<Option<usize>>, sent_by: Option<usize>) -> Seq<usize> {
    recipients_from(m, sent_by, 0)
}

/// The occupied slots and their players, in slot order.
pub open spec fn occupants_from(m: Seq<Option<usize>>, k: int) -> Seq<(u8, usize)>
    decreases m.len() - k,
{
    if k < 0 || k >= m.len() {
        Seq::empty()
    } else {
        let rest = occupants_from(m, k + 1);
        match m[k] {
            Some(c) => seq![(k as u8, c)] + rest,
            None => rest,
        }
    }
}

/// The occupied slots and their players, in slot order.
pub open spec fn occupants(m: Seq<Option<usize>>) -> Seq<(u8, usize)> {
    occupants_from(m, 0)
}

/// The occupied slots and their players except those holding `player`,
/// in slot order.
pub open spec fn occupants_except_from(m: Seq<Option<usize>>, player: usize, k: int) -> Seq<(u8, usize)>
    decreases m.len() - k,
{
    if k < 0 || k >= m.len() {
        Seq::empty()
    } else {
        let rest = occupants_except_from(m, player, k + 1);
        match m[k] {
            Some(c) => if c == player { rest } else { seq![(k as u8, c)] + rest },
            None => rest,
        }
    }
}

/// The occupied slots and their players except those holding `player`,
/// in slot order.
pub open spec fn occupants_except(m: Seq<Option<usize>>, player: usize) -> Seq<(u8, usize)> {
    occupants_except_from(m, player, 0)
}

/// When slot `i` is the only occupied one from `k` on, the count from `k`
/// on is one.
pub proof fn lemma_count_single(m: Seq<Option<usize>>, k: int, i: int)
    requires
        0 <= k <= i < m.len(),
        m[i] is Some,
        forall|j: int| k <= j < m.len() && j != i ==> m[j] is None,
    ensures
        count_from(m, k) == 1,
    decreases m.len() - k,
{
    if k < i {
        lemma_count_single(m, k + 1, i);
    } else {
        lemma_count_zero(m, k + 1);
    }
}

/// With no occupied slot from `k` on, the count from `k` on is zero.
pub proof fn lemma_count_zero(m: Seq<Option<usize>>, k: int)
    requires
        0 <= k,
        forall|j: int| k <= j < m.len() ==> m[j] is None,
    ensures
        count_from(m, k) == 0,
    decreases m.len() - k,
{
    if k < m.len() {
        lemma_count_zero(m, k + 1);
    }
}

/// Filling an empty slot adds one to the count from every `k` up to it.
pub proof fn lemma_count_fill(m: Seq<Option<usize>>, k: int, i: int, v: usize)
    requires
        0 <= k <= m.len(),
        0 <= i < m.len(),
        m[i] is None,
    ensures
        count_from(m.update(i, Some(v)), k) == count_from(m, k) + (if k <= i { 1int } else { 0int }),
    decreases m.len() - k,
{
    if k < m.len() {
        lemma_count_fill(m, k + 1, i, v);
    }
}

/// Emptying a taken slot takes one from the count from every `k` up to it.
pub proof fn lemma_count_clear(m: Seq<Option<usize>>, k: int, i: int)
    requires
        0 <= k <= m.len(),
        0 <= i < m.len(),
        m[i] is Some,
    ensures
        count_from(m.update(i, None), k) + (if k <= i { 1int } else { 0int }) == count_from(m, k),
    decreases m.len() - k,
{
    if k < m.len() {
        lemma_count_clear(m, k + 1, i);
    }
}

/// With a zero count from `k` on, every slot from `k` on is empty.
pub proof fn lemma_count_zero_empty(m: Seq<Option<usize>>, k: int)
    requires
        0 <= k <= m.len(),
        count_from(m, k) == 0,
    ensures
        forall|j: int| k <= j < m.len() ==> m[j] is None,
    decreases m.len() - k,
{
    if k < m.len() {
        lemma_count_zero_empty(m, k + 1);
    }
}

/// When no slot before `i` holds `player` and slot `i` does, `i` is the
/// slot found for them.
pub proof fn lemma_slot_of_at(m: Seq<Option<usize>>, player: usize, k: int, i: int)
    requires
        0 <= k <= i < m.len(),
        m[i] == Some(player),
        forall|j: int| k <= j < i ==> m[j] != Some(player),
    ensures
        slot_of_from(m, player, k) == Some(i),
    decreases i - k,
{
    if k < i {
        lemma_slot_of_at(m, player, k + 1, i);
    }
}

/// The count from `k` on does not exceed the number of slots from `k` on.
pub proof fn lemma_count_bound(m: Seq<Option<usize>>, k: int)
    requires
        0 <= k <= m.len(),
    ensures
        count_from(m, k) <= m.len() - k,
    decreases m.len() - k,
{
    if k < m.len() {
        lemma_count_bound(m, k + 1);
    }
}

/// A slot from `k` on that holds a player makes the count from `k` on
/// positive.
pub proof fn lemma_count_pos(m: Seq<Option<usize>>, k: int, i: int)
    requires
        0 <= k <= i < m.len(),
        m[i] is Some,
    ensures
        count_from(m, k) > 0,
    decreases i - k,
{
    if k < i {
        lemma_count_pos(m, k + 1, i);
    }
}

/// There is an empty slot from `k` on exactly when the count from `k` on is
/// below the number of slots from `k` on; a found slot is empty and no
/// earlier one from `k` on is; with none found, every slot from `k` on is
/// taken.
pub proof fn lemma_first_empty(m: Seq<Option<usize>>, k: int)
    requires
        0 <= k <= m.len(),
    ensures
        first_empty_from(m, k) is None <==> count_from(m, k) == m.len() - k,
        first_empty_from(m, k) matches Some(i) ==> k <= i < m.len() && m[i] is None
            && forall|j: int| k <= j < i ==> m[j] is Some,
        first_empty_from(m, k) is None ==> forall|j: int| k <= j < m.len() ==> #[trigger] m[j] is Some,
    decreases m.len() - k,
{
    if k < m.len() {
        lemma_first_empty(m, k + 1);
        lemma_count_bound(m, k + 1);
    }
}

/// A slot found for `player` holds them, and no earlier one from `k` on
/// does; none is found exactly when no slot from `k` on holds them.
pub proof fn lemma_slot_of(m: Seq<Option<usize>>, player: usize, k: int)
    requires
        0 <= k <= m.len(),
    ensures
        slot_of_from(m, player, k) matches Some(i) ==> k <= i < m.len() && m[i] == Some(player)
            && forall|j: int| k <= j < i ==> m[j] != Some(player),
        slot_of_from(m, player, k) is None <==> forall|j: int| k <= j < m.len() ==> m[j] != Some(player),
    decreases m.len() - k,
{
    if k < m.len() {
        lemma_slot_of(m, player, k + 1);
    }
}

/// A slot found by `first_other_from` holds another player, and no earlier
/// one from `k` on does.
pub proof fn lemma_first_other(m: Seq<Option<usize>>, player: usize, k: int)
    requires
        0 <= k <= m.len(),
    ensures
        first_other_from(m, player, k) matches Some(i) ==> k <= i < m.len() && m[i] is Some && m[i] != Some(player)
            && forall|j: int| k <= j < i ==> (m[j] is None || m[j] == Some(player)),
        first_other_from(m, player, k) is None <==> forall|j: int|
            k <= j < m.len() ==> (m[j] is None || m[j] == Some(player)),
    decreases m.len() - k,
{
    if k < m.len() {
        lemma_first_other(m, player, k + 1);
    }
}

/// The number of occupied slots.
pub fn count_occupied(s: &[Option<usize>]) -> (r: usize)
    ensures
        r == occupied(s@),
{
    let n = s.len();
    let mut i: usize = n;
    let mut count: usize = 0;
    while i > 0
        invariant
            n == s@.len(),
            i <= n,
            count == count_from(s@, i as int),
            count <= n - i,
        decreases i,
    {
        i = i - 1;
        if s[i].is_some() {
            count = count + 1;
        }
    }
    count
}

/// The lowest empty slot, if there is one.
pub fn find_first_empty(s: &[Option<usize>]) -> (r: Option<usize>)
    ensures
        r matches Some(i) ==> first_empty(s@) == Some(i as int),
        r is None ==> first_empty(s@) is None,
{
    let n = s.len();
    let mut i: usize = 0;
    while i < n
        invariant
            n == s@.len(),
            i <= n,
            first_empty_from(s@, 0) == first_empty_from(s@, i as int),
        decreases n - i,
    {
        if s[i].is_none() {
            return Some(i);
        }
        i = i + 1;
    }
    None
}

/// The lowest slot holding `player`, if there is one.
pub fn find_slot(s: &[Option<usize>], player: usize) -> (r: Option<usize>)
    ensures
        r matches Some(i) ==> slot_of(s@, player) == Some(i as int),
        r is None ==> slot_of(s@, player) is None,
{
    let n = s.len();
    let mut i: usize = 0;
    while i < n
        invariant
            n == s@.len(),
            i <= n,
            slot_of_from(s@, player, 0) == slot_of_from(s@, player, i as int),
        decreases n - i,
    {
        match s[i] {
            Some(c) => {
                if c == player {
                    return Some(i);
                }
            },
            None => {},
        }
        i = i + 1;
    }
    None
}

/// The lowest slot holding a player other than `player`, with that player.
pub fn find_first_other(s: &[Option<usize>], player: usize) -> (r: Option<(usize, usize)>)
    ensures
        r matches Some((i, c)) ==> first_other(s@, player) == Some(i as int) && s@[i as int] == Some(c),
        r is None ==> first_other(s@, player) is None,
{
    let n = s.len();
    let mut i: usize = 0;
    while i < n
        invariant
            n == s@.len(),
            i <= n,
            first_other_from(s@, player, 0) == first_other_from(s@, player, i as int),
        decreases n - i,
    {
        match s[i] {
            Some(c) => {
                if c != player {
                    return Some((i, c));
                }
            },
            None => {},
        }
        i = i + 1;
    }
    None
}

/// The players a broadcast from `sent_by` reaches, in slot order.
pub fn broadcast_targets(s: &[Option<usize>], sent_by: Option<usize>) -> (r: Vec<usize>)
    ensures
        r@ == recipients(s@, sent_by),
{
    let n = s.len();
    let mut i: usize = n;
    // Collect from the back, putting each found player in front.
    let mut out: Vec<usize> = Vec::new();
    while i > 0
        invariant
            n == s@.len(),
            i <= n,
            out@ == recipients_from(s@, sent_by, i as int),
        decreases i,
    {
        i = i - 1;
        match s[i] {
            Some(c) => {
                let skip = match sent_by {
                    Some(p) => p == c,
                    None => false,
                };
                if !skip {
                    let mut front: Vec<usize> = Vec::new();
                    front.push(c);
                    front.append(&mut out);
                    out = front;
                    assert(out@ =~= seq![c] + recipients_from(s@, sent_by, (i + 1) as int));
                }
            },
            None => {},
        }
    }
    out
}

/// The occupied slots and their players, in slot order.
pub fn occupant_list(s: &[Option<usize>]) -> (r: Vec<(u8, usize)>)
    ensures
        r@ == occupants(s@),
{
    let n = s.len();
    let mut i: usize = n;
    let mut out: Vec<(u8, usize)> = Vec::new();
    while i > 0
        invariant
            n == s@.len(),
            i <= n,
            out@ == occupants_from(s@, i as int),
        decreases i,
    {
        i = i - 1;
        match s[i] {
            Some(c) => {
                let mut front: Vec<(u8, usize)> = Vec::new();
                front.push((i as u8, c));
                front.append(&mut out);
                out = front;
                assert(out@ =~= seq![(i as u8, c)] + occupants_from(s@, (i + 1) as int));
            },
            None => {},
        }
    }
    out
}

/// The occupied slots and their players except those holding `player`,
/// in slot order.
pub fn occupant_list_except(s: &[Option<usize>], player: usize) -> (r: Vec<(u8, usize)>)
    ensures
        r@ == occupants_except(s@, player),
{
    let n = s.len();
    let mut i: usize = n;
    let mut out: Vec<(u8, usize)> = Vec::new();
    while i > 0
        invariant
            n == s@.len(),
            i <= n,
            out@ == occupants_except_from(s@, player, i as int),
        decreases i,
    {
        i = i - 1;
        match s[i] {
            Some(c) => {
                if c != player {
                    let mut front: Vec<(u8, usize)> = Vec::new();
                    front.push((i as u8, c));
                    front.append(&mut out);
                    out = front;
                    assert(out@ =~= seq![(i as u8, c)] + occupants_except_from(s@, player, (i + 1) as int));
                }
            },
            None => {},
        }
    }
    out
}

} // verus!
