//! The outcome function: the pure comparison evaluated over two decrypted
//! moves inside the secure-computation boundary.
//!
//! Two variants exist: an attribute-dominance duel (an action type plus a
//! power value per player) and a single hidden-card comparison. Both are pure
//! functions from the two operands to a winner and a damage value; the damage
//! is a non-negative difference and never underflows.

use vstd::prelude::*;

verus! {

/// Action type: a direct strike. Beats a guard break, loses to a guard.
pub const ATTACK: u64 = 1;

/// Action type: a guard. Beats a strike, loses to a guard break.
pub const DEFEND: u64 = 2;

/// Action type: a guard break. Beats a guard, loses to a strike.
pub const BREAK: u64 = 3;

/// Winner code for a draw: nobody takes damage.
pub const WINNER_NONE: u64 = 0;

/// Winner code for the first player.
pub const WINNER_PLAYER_1: u64 = 1;

/// Winner code for the second player.
pub const WINNER_PLAYER_2: u64 = 2;

/// One player's hidden move for a turn: an action type (expected to be one of
/// `ATTACK`, `DEFEND`, `BREAK`; out-of-range values are a caller error and are
/// not validated inside the secure boundary) and a power value.
#[derive(Clone, Copy, PartialEq, Eq, Debug)]
pub struct PlayerMove {
    pub action_type: u64,
    pub power: u64,
}

/// The outcome of one resolved turn: a winner code (`WINNER_NONE`,
/// `WINNER_PLAYER_1` or `WINNER_PLAYER_2`) and the damage dealt.
#[derive(Clone, Copy, PartialEq, Eq, Debug)]
pub struct BattleResult {
    pub winner: u64,
    pub damage: u64,
}

/// The cyclic dominance relation over action types:
/// `ATTACK` beats `BREAK`, `BREAK` beats `DEFEND`, `DEFEND` beats `ATTACK`.
pub open spec fn beats(x: u64, y: u64) -> bool {
    ||| x == ATTACK && y == BREAK
    ||| x == BREAK && y == DEFEND
    ||| x == DEFEND && y == ATTACK
}

/// The winner of an attribute-dominance duel: a dominant type wins outright;
/// equal types fall back to a power comparison; anything else is a draw.
pub open spec fn duel_winner(a: PlayerMove, b: PlayerMove) -> u64 {
    if beats(a.action_type, b.action_type) {
        WINNER_PLAYER_1
    } else if beats(b.action_type, a.action_type) {
        WINNER_PLAYER_2
    } else if a.action_type == b.action_type {
        if a.power > b.power {
            WINNER_PLAYER_1
        } else if b.power > a.power {
            WINNER_PLAYER_2
        } else {
            WINNER_NONE
        }
    } else {
        WINNER_NONE
    }
}

/// The damage of an attribute-dominance duel: a dominant type deals its own
/// full power; equal types deal the non-negative difference of powers; a draw
/// deals nothing.
pub open spec fn duel_damage(a: PlayerMove, b: PlayerMove) -> int {
    if beats(a.action_type, b.action_type) {
        a.power as int
    } else if beats(b.action_type, a.action_type) {
        b.power as int
    } else if a.action_type == b.action_type {
        if a.power > b.power {
            a.power - b.power
        } else if b.power > a.power {
            b.power - a.power
        } else {
            0
        }
    } else {
        0
    }
}

/// Resolves one attribute-dominance duel. Evaluated inside the
/// secure-computation boundary over decrypted operands; the selection among
/// candidate outcomes is a value-level choice over precomputed predicates, so
/// no comparison result escapes through observable control flow.
pub fn resolve_duel(a: &PlayerMove, b: &PlayerMove) -> (r: BattleResult)
    ensures
        r.winner == duel_winner(*a, *b),
        r.damage == duel_damage(*a, *b),
{
    let a_type_wins: bool = (a.action_type == ATTACK && b.action_type == BREAK)
        || (a.action_type == BREAK && b.action_type == DEFEND)
        || (a.action_type == DEFEND && b.action_type == ATTACK);
    let b_type_wins: bool = (b.action_type == ATTACK && a.action_type == BREAK)
        || (b.action_type == BREAK && a.action_type == DEFEND)
        || (b.action_type == DEFEND && a.action_type == ATTACK);
    let same_type: bool = a.action_type == b.action_type;

    if a_type_wins {
        BattleResult { winner: WINNER_PLAYER_1, damage: a.power }
    } else if b_type_wins {
        BattleResult { winner: WINNER_PLAYER_2, damage: b.power }
    } else if same_type {
        if a.power > b.power {
            BattleResult { winner: WINNER_PLAYER_1, damage: a.power - b.power }
        } else if b.power > a.power {
            BattleResult { winner: WINNER_PLAYER_2, damage: b.power - a.power }
        } else {
            BattleResult { winner: WINNER_NONE, damage: 0 }
        }
    } else {
        BattleResult { winner: WINNER_NONE, damage: 0 }
    }
}

/// The winner of a single hidden-card comparison: the strictly greater value.
pub open spec fn card_winner(value_a: u64, value_b: u64) -> u64 {
    if value_a > value_b {
        WINNER_PLAYER_1
    } else if value_b > value_a {
        WINNER_PLAYER_2
    } else {
        WINNER_NONE
    }
}

/// The damage of a single hidden-card comparison: the non-negative difference
/// of the two values.
pub open spec fn card_damage(value_a: u64, value_b: u64) -> int {
    if value_a > value_b {
        value_a - value_b
    } else if value_b > value_a {
        value_b - value_a
    } else {
        0
    }
}

/// Resolves one hidden-card duel: the strictly greater value wins and deals
/// the difference; equal values draw.
pub fn resolve_card_duel(value_a: u64, value_b: u64) -> (r: BattleResult)
    ensures
        r.winner == card_winner(value_a, value_b),
        r.damage == card_damage(value_a, value_b),
{
    if value_a > value_b {
        BattleResult { winner: WINNER_PLAYER_1, damage: value_a - value_b }
    } else if value_b > value_a {
        BattleResult { winner: WINNER_PLAYER_2, damage: value_b - value_a }
    } else {
        BattleResult { winner: WINNER_NONE, damage: 0 }
    }
}

/// Law: when the two action types stand in the dominance relation, the
/// dominant player wins and deals exactly their own full power — whatever
/// power the other player chose.
pub proof fn lemma_dominant_type_takes_full_power(a: PlayerMove, b: PlayerMove)
    ensures
        beats(a.action_type, b.action_type) ==> duel_winner(a, b) == WINNER_PLAYER_1
            && duel_damage(a, b) == a.power,
        beats(b.action_type, a.action_type) ==> duel_winner(a, b) == WINNER_PLAYER_2
            && duel_damage(a, b) == b.power,
        beats(a.action_type, b.action_type) ==> forall|p: u64|
            duel_winner(a, (PlayerMove { action_type: b.action_type, power: p }))
                == WINNER_PLAYER_1
            && duel_damage(a, (PlayerMove { action_type: b.action_type, power: p }))
                == a.power,
{
}

/// Law: when the two action types are equal, the higher power wins and the
/// damage is the absolute difference of the powers; equal powers draw with no
/// damage.
pub proof fn lemma_equal_types_compare_power(a: PlayerMove, b: PlayerMove)
    requires
        a.action_type == b.action_type,
    ensures
        a.power > b.power ==> duel_winner(a, b) == WINNER_PLAYER_1,
        b.power > a.power ==> duel_winner(a, b) == WINNER_PLAYER_2,
        a.power == b.power ==> duel_winner(a, b) == WINNER_NONE,
        duel_damage(a, b) == if a.power >= b.power {
            a.power - b.power
        } else {
            b.power - a.power
        },
{
}

/// Law: the damage of either outcome-function variant is never negative, for
/// every input pair.
pub proof fn lemma_damage_never_negative(a: PlayerMove, b: PlayerMove)
    ensures
        duel_damage(a, b) >= 0,
        card_damage(a.power, b.power) >= 0,
{
}

/// Law: the outcome is internally consistent — the winner code is one of the
/// three defined values, and a draw deals no damage.
pub proof fn lemma_outcome_well_formed(a: PlayerMove, b: PlayerMove)
    ensures
        duel_winner(a, b) == WINNER_NONE || duel_winner(a, b) == WINNER_PLAYER_1
            || duel_winner(a, b) == WINNER_PLAYER_2,
        duel_winner(a, b) == WINNER_NONE ==> duel_damage(a, b) == 0,
        card_winner(a.power, b.power) == WINNER_NONE ==> card_damage(a.power, b.power) == 0,
{
}

/// Law: the hidden-card variant is the attribute-dominance duel restricted to
/// one shared action type.
pub proof fn lemma_card_variant_is_degenerate_duel(t: u64, value_a: u64, value_b: u64)
    ensures
        card_winner(value_a, value_b) == duel_winner(
            (PlayerMove { action_type: t, power: value_a }),
            (PlayerMove { action_type: t, power: value_b }),
        ),
        card_damage(value_a, value_b) == duel_damage(
            (PlayerMove { action_type: t, power: value_a }),
            (PlayerMove { action_type: t, power: value_b }),
        ),
{
}

} // verus!
