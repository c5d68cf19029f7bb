use vstd::prelude::*;
use crate::response::Coin;

verus! {

/// The amount of the first coin of the given denomination among the
/// attached funds, or zero when no such coin is attached. A later coin of
/// the same denomination is shadowed by the first, matching how the
/// routing logic scans the attached transfer.
pub open spec fn coin_amount(funds: Seq<Coin>, denom: Seq<char>) -> u128
    decreases funds.len(),
{
    if funds.len() == 0 {
        0
    } else if funds[0].denom@ == denom {
        funds[0].amount
    } else {
        coin_amount(funds.skip(1), denom)
    }
}

/// Find the amount of the first coin of denomination `denom` in `funds`;
/// zero when the denomination is absent.
pub fn amount_of(funds: &Vec<Coin>, denom: &str) -> (r: u128)
    ensures
        r == coin_amount(funds@, denom@),
{
    let target: String = String::from_str(denom);
    let mut i: usize = 0;
    proof {
        assert(funds@.skip(0) =~= funds@);
    }
    while i < funds.len()
        invariant
            i <= funds.len(),
            target@ == denom@,
            coin_amount(funds@, denom@) == coin_amount(funds@.skip(i as int), denom@),
        decreases funds.len() - i,
    {
        if funds[i].denom == target {
            proof {
                assert(funds@.skip(i as int)[0] == funds@[i as int]);
            }
            return funds[i].amount;
        }
        proof {
            assert(funds@.skip(i as int)[0] == funds@[i as int]);
            assert(funds@.skip(i as int).skip(1) =~= funds@.skip(i + 1));
        }
        i = i + 1;
    }
    proof {
        assert(funds@.skip(i as int).len() == 0);
    }
    0
}

} // verus!
