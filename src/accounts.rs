use vstd::prelude::*;
use crate::address::Address;

verus! {

/// Account bytes keyed by address; where an address occurs twice the first
/// entry counts.
pub type AccountMap = Vec<(Address, Vec<u8>)>;

/// The bytes of the first entry of `m` at address `k`.
pub open spec fn account_data(m: Seq<(Address, Vec<u8>)>, k: Seq<u8>) -> Option<Seq<u8>>
    decreases m.len(),
{
    if m.len() == 0 {
        None
    } else if m[0].0@ == k {
        Some(m[0].1@)
    } else {
        account_data(m.drop_first(), k)
    }
}

/// Index of the first entry of `m` at address `k`.
pub fn find_account(m: &AccountMap, k: &Address) -> (r: Option<usize>)
    ensures
        match r {
            Some(i) => i < m@.len() && m@[i as int].0@ == k@ && account_data(m@, k@) == Some(
                m@[i as int].1@,
            ),
            None => account_data(m@, k@).is_none(),
        },
{
    let mut i: usize = 0;
    assert(m@.subrange(0, m@.len() as int) =~= m@);
    while i < m.len()
        invariant
            0 <= i <= m@.len(),
            account_data(m@, k@) == account_data(m@.subrange(i as int, m@.len() as int), k@),
        decreases m@.len() - i,
    {
        proof {
            let rest = m@.subrange(i as int, m@.len() as int);
            assert(rest.drop_first() =~= m@.subrange(i + 1, m@.len() as int));
            assert(rest[0] == m@[i as int]);
        }
        if m[i].0.same_as(k) {
            return Some(i);
        }
        i = i + 1;
    }
    assert(m@.subrange(i as int, m@.len() as int).len() == 0);
    None
}

} // verus!
