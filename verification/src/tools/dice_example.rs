//! A tool that rolls dice.

use super::{tool_result_view, ToolError, ToolErrorView};
use crate::text::{decimal, decimal_text};
use vstd::prelude::*;
use vstd::string::*;

verus! {

/// A request to roll `count` dice of `sides` sides each.
#[derive(Debug, Clone, Copy, PartialEq, Eq)]
pub struct RollRequestExample {
    /// Number of sides on the dice (6 for a d6, 20 for a d20).
    pub sides: u32,
    /// Number of dice to roll.
    pub count: u32,
}

/// Number of dice rolled when a request names none.
pub fn default_count() -> (count: u32)
    ensures
        count == 1,
{
    1
}

/// The most dice that one request may roll.
pub const MAX_DICE: u32 = 100;

/// The sum of the rolls.
pub open spec fn total(rolls: Seq<u32>) -> nat
    decreases rolls.len(),
{
    if rolls.len() == 0 {
        0
    } else {
        total(rolls.drop_last()) + rolls.last() as nat
    }
}

/// The rolls in decimal, with a comma and a space between them.
pub open spec fn listed(rolls: Seq<u32>) -> Seq<char>
    decreases rolls.len(),
{
    if rolls.len() == 0 {
        Seq::empty()
    } else if rolls.len() == 1 {
        decimal(rolls[0] as nat)
    } else {
        listed(rolls.drop_last()) + ", "@ + decimal(rolls.last() as nat)
    }
}

/// The text that reports the rolls of dice of `sides` sides: one roll is
/// reported by itself, and several are listed with their total.
pub open spec fn roll_report(sides: u32, rolls: Seq<u32>) -> Seq<char> {
    if rolls.len() == 1 {
        "Rolled a d"@ + decimal(sides as nat) + ": "@ + decimal(rolls[0] as nat)
    } else {
        "Rolled "@ + decimal(rolls.len()) + "d"@ + decimal(sides as nat) + ": "@ + listed(rolls)
            + " (total: "@ + decimal(total(rolls)) + ")"@
    }
}

/// Every roll is a face of a die of `sides` sides.
pub open spec fn all_faces(sides: u32, rolls: Seq<u32>) -> bool {
    forall|i: int| 0 <= i < rolls.len() ==> 1 <= #[trigger] rolls[i] <= sides
}

/// Calls `rand::Rng::random_range` on the generator of the thread,
/// `rand::rng`, with the range from 1 to `sides`, both included. The result
/// lies in that range. An empty range makes the call panic, so `sides` is
/// at least 1.
#[verifier::external_body]
fn random_face(sides: u32) -> (face: u32)
    requires
        sides >= 1,
    ensures
        1 <= face <= sides,
{
    rand::Rng::random_range(&mut rand::rng(), 1..=sides)
}

/// The dice roller.
#[derive(Clone, Copy, Debug)]
pub struct DiceToolExample;

impl DiceToolExample {
    /// Rolls the dice that the request asks for and reports them.
    ///
    /// Dice without sides are refused, and so is a count of none or of
    /// more than 100. Otherwise the answer reports as many rolls as were
    /// asked for, each a face of the die.
    pub fn roll(&self, req: RollRequestExample) -> (r: Result<String, ToolError>)
        ensures
            req.sides == 0 ==> tool_result_view(r) == Err::<Seq<char>, ToolErrorView>(
                ToolErrorView::InvalidParams("Dice must have at least 1 side"@),
            ),
            req.sides != 0 && (req.count == 0 || req.count > MAX_DICE) ==> tool_result_view(r)
                == Err::<Seq<char>, ToolErrorView>(
                ToolErrorView::InvalidParams("Count must be between 1 and 100"@),
            ),
            req.sides != 0 && 1 <= req.count <= MAX_DICE ==> (r matches Ok(text) && exists|
                rolls: Seq<u32>,
            |
                rolls.len() == req.count && all_faces(req.sides, rolls) && text@ == roll_report(
                    req.sides,
                    rolls,
                )),
    {
        if req.sides == 0 {
            return Err(ToolError::InvalidParams(String::from_str("Dice must have at least 1 side")));
        }
        if req.count == 0 || req.count > MAX_DICE {
            return Err(
                ToolError::InvalidParams(String::from_str("Count must be between 1 and 100")),
            );
        }
        let mut rolls: Vec<u32> = Vec::new();
        let mut i: u32 = 0;
        while i < req.count
            invariant
                i <= req.count,
                req.sides >= 1,
                rolls@.len() == i,
                all_faces(req.sides, rolls@),
            decreases req.count - i,
        {
            rolls.push(random_face(req.sides));
            i += 1;
        }
        Ok(DiceToolExample::report(req.sides, &rolls))
    }

    /// The text that reports the given rolls of dice of `sides` sides.
    pub fn report(sides: u32, rolls: &Vec<u32>) -> (text: String)
        ensures
            text@ == roll_report(sides, rolls@),
    {
        let mut list = String::new();
        let mut sum: u128 = 0;
        let mut i: usize = 0;
        while i < rolls.len()
            invariant
                i <= rolls.len(),
                list@ == listed(rolls@.take(i as int)),
                sum == total(rolls@.take(i as int)),
                sum <= i * 0xffff_ffff,
            decreases rolls.len() - i,
        {
            proof {
                let upto = rolls@.take(i + 1);
                assert(upto.drop_last() =~= rolls@.take(i as int));
            }
            if i > 0 {
                list.append(", ");
            }
            let roll = decimal_text(rolls[i] as u128);
            list.append(roll.as_str());
            sum = sum + rolls[i] as u128;
            i += 1;
        }
        assert(rolls@.take(rolls.len() as int) =~= rolls@);
        if rolls.len() == 1 {
            let mut text = String::from_str("Rolled a d");
            text.append(decimal_text(sides as u128).as_str());
            text.append(": ");
            text.append(decimal_text(rolls[0] as u128).as_str());
            text
        } else {
            let mut text = String::from_str("Rolled ");
            text.append(decimal_text(rolls.len() as u128).as_str());
            text.append("d");
            text.append(decimal_text(sides as u128).as_str());
            text.append(": ");
            text.append(list.as_str());
            text.append(" (total: ");
            text.append(decimal_text(sum).as_str());
            text.append(")");
            text
        }
    }
}

} // verus!
