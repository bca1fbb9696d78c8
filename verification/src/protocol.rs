//! The match state machine and the resolution coordinator.
//!
//! One `GameState` record tracks a single match between two identities: their
//! encrypted commitments, the per-turn committed flags, the turn counter, the
//! phase, and the at-most-one outstanding computation ticket. Every mutation
//! of a match funnels through the operations here; each executes atomically
//! relative to the record (the ledger that stores the record serializes them).
//!
//! The commit → compute → callback lifecycle: once both commitments exist, a
//! resolution request packages the opaque ciphertexts into exactly one
//! outbound computation and records its ticket; the callback for that ticket
//! is applied exactly once, guarded against duplicate, reordered or stale
//! delivery by the `(match id, turn)` pair recorded in the ticket.

use vstd::prelude::*;

use crate::codec::le_u64_of;
use crate::codec::u64_from_le_prefix;
use crate::duel::BattleResult;

verus! {

/// A player's identity: the 32-byte public key under which the ledger
/// authenticates the caller of each operation.
#[derive(Clone, Copy, PartialEq, Eq, Debug)]
pub struct PlayerId {
    pub bytes: [u8; 32],
}

/// Compares two identities byte for byte.
pub fn player_id_eq(a: &PlayerId, b: &PlayerId) -> (r: bool)
    ensures
        r == (*a == *b),
{
    let mut i: usize = 0;
    while i < 32
        invariant
            0 <= i <= 32,
            forall|j: int| 0 <= j < i ==> a.bytes@[j] == b.bytes@[j],
        decreases 32 - i,
    {
        if a.bytes[i] != b.bytes[i] {
            return false;
        }
        i = i + 1;
    }
    proof {
        assert(a.bytes =~= b.bytes);
    }
    true
}

/// The phase of a match. A match starts in the lobby; once both players have
/// committed it awaits a resolution request; while a computation is
/// outstanding it is resolving, and a verified callback returns it to
/// awaiting the next turn's moves.
#[derive(Clone, Copy, PartialEq, Eq, Debug)]
pub enum Phase {
    Lobby,
    AwaitingMoves,
    Resolving,
}

/// A protocol violation by a caller: detected synchronously, reported to the
/// caller, and never accompanied by a state change.
#[derive(Clone, Copy, PartialEq, Eq, Debug)]
pub enum GameError {
    /// A match already exists under the requested identifier.
    AlreadyExists,
    /// The match already has a second player.
    GameFull,
    /// The caller is neither of the match's players.
    NotAPlayer,
    /// Resolution was requested before both players committed a move.
    WaitingForMoves,
    /// A computation for this match and turn is already outstanding.
    ComputationAlreadyOutstanding,
}

/// A failure on the computation path: the callback did not carry a usable
/// result. Neither variant mutates match state.
#[derive(Clone, Copy, PartialEq, Eq, Debug)]
pub enum ErrorCode {
    /// The secure-computation network reported failure, or the callback
    /// failed provenance verification. The match stays in the resolving
    /// phase; recovery is an external policy decision.
    AbortedComputation,
    /// The callback belongs to a turn the match has already moved past; the
    /// stale result is discarded.
    StaleComputation,
}

/// The ticket correlating one outstanding secure-computation request to the
/// match and turn it was issued for. At most one ticket exists per match at a
/// time.
#[derive(Clone, Copy, PartialEq, Eq, Debug)]
pub struct PendingComputation {
    pub computation_id: u64,
    pub match_id: u64,
    pub requested_turn: u64,
}

/// The outbound secure-computation request: a correlation identifier, the
/// public key under which the result is to be encrypted, a fresh nonce, and
/// the ordered list of opaque ciphertext operands — first player's move type
/// and power, then the second player's. The contents of the operands are
/// never inspected.
#[derive(Clone, Copy, PartialEq, Eq, Debug)]
pub struct ComputationRequest {
    pub computation_id: u64,
    pub result_encryption_pubkey: [u8; 32],
    pub nonce: u128,
    pub p1_move_type: [u8; 32],
    pub p1_move_power: [u8; 32],
    pub p2_move_type: [u8; 32],
    pub p2_move_power: [u8; 32],
}

/// The two sealed result fields of a completed computation: one fixed-width
/// block for the winner, one for the damage, each carrying a little-endian
/// 64-bit value in its first eight bytes.
#[derive(Clone, Copy, PartialEq, Eq, Debug)]
pub struct DuelOutput {
    pub winner_block: [u8; 32],
    pub damage_block: [u8; 32],
}

/// What provenance verification made of a callback: a verified output, or an
/// explicit abort (a failed computation or a failed verification).
#[derive(Clone, Copy, PartialEq, Eq, Debug)]
pub enum CallbackOutcome {
    Verified(DuelOutput),
    Aborted,
}

/// The durable event emitted exactly once per successfully applied
/// resolution: the match, the winner code, the damage dealt, and the turn
/// that was resolved.
#[derive(Clone, Copy, PartialEq, Eq, Debug)]
pub struct RoundEndEvent {
    pub game: u64,
    pub winner_id: u8,
    pub damage: u64,
    pub turn: u64,
}

/// The event that resolving the current turn of `m` with `result` emits.
pub open spec fn resolution_event(m: GameState, result: BattleResult) -> RoundEndEvent {
    RoundEndEvent {
        game: m.id,
        winner_id: result.winner as u8,
        damage: result.damage,
        turn: m.turn,
    }
}

/// The battle result carried by a verified output: each field is the
/// little-endian value of its block's first eight bytes.
pub open spec fn decoded_result(o: DuelOutput) -> BattleResult {
    BattleResult {
        winner: le_u64_of(o.winner_block@) as u64,
        damage: le_u64_of(o.damage_block@) as u64,
    }
}

/// One match between two identities, keyed on the ledger by `id`.
#[derive(Clone, Copy, PartialEq, Eq, Debug)]
pub struct GameState {
    pub id: u64,
    pub player_1: PlayerId,
    /// Unset until the second player joins; joining is the only mutation
    /// that sets it.
    pub player_2: Option<PlayerId>,
    /// First player's commitment slot: an opaque ciphertext per move field.
    pub p1_move_type: [u8; 32],
    pub p1_move_power: [u8; 32],
    pub p1_committed: bool,
    /// Second player's commitment slot.
    pub p2_move_type: [u8; 32],
    pub p2_move_power: [u8; 32],
    pub p2_committed: bool,
    pub turn: u64,
    pub phase: Phase,
    /// The at-most-one outstanding computation ticket.
    pub pending: Option<PendingComputation>,
}

/// Holds of a ciphertext slot that has never been written.
pub open spec fn block_is_zero(b: [u8; 32]) -> bool {
    forall|i: int| 0 <= i < 32 ==> b@[i] == 0
}

impl GameState {
    /// The record's well-formedness: the turn counter starts at one, the
    /// resolving phase coincides exactly with an outstanding ticket, and an
    /// outstanding ticket always names this match and its current turn.
    /// Creation establishes it and every operation preserves it.
    pub open spec fn wf(self) -> bool {
        &&& self.turn >= 1
        &&& (self.phase is Resolving <==> self.pending is Some)
        &&& (self.pending matches Some(p) ==> p.match_id == self.id && p.requested_turn
            == self.turn)
    }

    /// Whether `who` is one of the match's players.
    pub open spec fn is_participant(self, who: PlayerId) -> bool {
        who == self.player_1 || self.player_2 == Some(who)
    }

    /// The state after `who` commits a move: their slot holds the new
    /// ciphertexts (last write wins), their flag is set, and once both flags
    /// are set a lobby match moves on to awaiting resolution.
    pub open spec fn committed_state(
        self,
        as_player_1: bool,
        enc_type: [u8; 32],
        enc_power: [u8; 32],
    ) -> GameState {
        let stored = if as_player_1 {
            GameState {
                p1_move_type: enc_type,
                p1_move_power: enc_power,
                p1_committed: true,
                ..self
            }
        } else {
            GameState {
                p2_move_type: enc_type,
                p2_move_power: enc_power,
                p2_committed: true,
                ..self
            }
        };
        if stored.p1_committed && stored.p2_committed && stored.phase is Lobby {
            GameState { phase: Phase::AwaitingMoves, ..stored }
        } else {
            stored
        }
    }

    /// Whether a callback ticket still matches this match and turn; a ticket
    /// from a superseded turn is stale and must be discarded.
    pub open spec fn accepts_outcome(self, pending: PendingComputation) -> bool {
        pending.match_id == self.id && pending.requested_turn == self.turn
    }

    /// The state after a verified result is applied: both committed flags
    /// clear, the turn advances, the ticket is consumed, and the match awaits
    /// the next turn's moves. This is the only transition that advances the
    /// turn or clears the flags.
    pub open spec fn resolved_state(self) -> GameState {
        GameState {
            p1_committed: false,
            p2_committed: false,
            turn: (self.turn + 1) as u64,
            phase: Phase::AwaitingMoves,
            pending: None,
            ..self
        }
    }

    /// Creates the lobby record for a new match. The ledger owns the key
    /// space, so it reports whether the identifier is already taken; a taken
    /// identifier is refused and nothing is created.
    pub fn create_game(id: u64, creator: PlayerId, id_taken: bool) -> (r: Result<
        GameState,
        GameError,
    >)
        ensures
            r is Ok <==> !id_taken,
            r matches Err(e) ==> e is AlreadyExists,
            r matches Ok(g) ==> g.id == id && g.player_1 == creator && g.player_2 is None
                && !g.p1_committed && !g.p2_committed && block_is_zero(g.p1_move_type)
                && block_is_zero(g.p1_move_power) && block_is_zero(g.p2_move_type)
                && block_is_zero(g.p2_move_power) && g.turn == 1 && g.phase is Lobby
                && g.pending is None && g.wf(),
    {
        if id_taken {
            return Err(GameError::AlreadyExists);
        }
        Ok(
            GameState {
                id,
                player_1: creator,
                player_2: None,
                p1_move_type: [0u8; 32],
                p1_move_power: [0u8; 32],
                p1_committed: false,
                p2_move_type: [0u8; 32],
                p2_move_power: [0u8; 32],
                p2_committed: false,
                turn: 1,
                phase: Phase::Lobby,
                pending: None,
            },
        )
    }

    /// Seats the second player. Fails if the seat is already taken; joining
    /// has no effect on the phase, since the phase advances only through
    /// commitments.
    pub fn join_game(&mut self, joiner: PlayerId) -> (r: Result<(), GameError>)
        ensures
            r is Ok <==> old(self).player_2 is None,
            r matches Err(e) ==> e is GameFull && *final(self) == *old(self),
            r is Ok ==> *final(self) == (GameState { player_2: Some(joiner), ..*old(self) }),
            old(self).wf() ==> final(self).wf(),
    {
        match self.player_2 {
            Some(_) => Err(GameError::GameFull),
            None => {
                self.player_2 = Some(joiner);
                Ok(())
            },
        }
    }

    /// Stores a player's encrypted move for the current turn and sets their
    /// committed flag. Committing again before resolution simply replaces the
    /// pending ciphertexts — last write wins. A caller who is neither player
    /// is refused.
    pub fn submit_move(
        &mut self,
        signer: PlayerId,
        encrypted_type: [u8; 32],
        encrypted_power: [u8; 32],
    ) -> (r: Result<(), GameError>)
        ensures
            r is Ok <==> old(self).is_participant(signer),
            r matches Err(e) ==> e is NotAPlayer && *final(self) == *old(self),
            r is Ok ==> *final(self) == old(self).committed_state(
                signer == old(self).player_1,
                encrypted_type,
                encrypted_power,
            ),
            old(self).wf() ==> final(self).wf(),
    {
        let is_p1: bool = player_id_eq(&signer, &self.player_1);
        if is_p1 {
            self.p1_move_type = encrypted_type;
            self.p1_move_power = encrypted_power;
            self.p1_committed = true;
        } else {
            let is_p2: bool = match &self.player_2 {
                Some(p2) => player_id_eq(&signer, p2),
                None => false,
            };
            if !is_p2 {
                return Err(GameError::NotAPlayer);
            }
            self.p2_move_type = encrypted_type;
            self.p2_move_power = encrypted_power;
            self.p2_committed = true;
        }
        if self.p1_committed && self.p2_committed {
            match self.phase {
                Phase::Lobby => {
                    self.phase = Phase::AwaitingMoves;
                },
                _ => {},
            }
        }
        Ok(())
    }

    /// Gates a resolution request: it is granted exactly when both committed
    /// flags are set and no computation is already outstanding. On success
    /// the match enters the resolving phase and records the ticket that the
    /// eventual callback must present.
    pub fn request_resolution(&mut self, computation_id: u64) -> (r: Result<
        PendingComputation,
        GameError,
    >)
        ensures
            r is Ok <==> old(self).p1_committed && old(self).p2_committed && old(
                self,
            ).pending is None,
            r matches Err(e) ==> *final(self) == *old(self) && (e is WaitingForMoves <==> !(old(
                self,
            ).p1_committed && old(self).p2_committed)),
            r matches Err(e) ==> (e is ComputationAlreadyOutstanding <==> old(self).p1_committed
                && old(self).p2_committed),
            r matches Ok(p) ==> p == (PendingComputation {
                computation_id,
                match_id: old(self).id,
                requested_turn: old(self).turn,
            }) && *final(self) == (GameState {
                phase: Phase::Resolving,
                pending: Some(p),
                ..*old(self)
            }),
            old(self).wf() ==> final(self).wf(),
    {
        if !(self.p1_committed && self.p2_committed) {
            return Err(GameError::WaitingForMoves);
        }
        match self.pending {
            Some(_) => Err(GameError::ComputationAlreadyOutstanding),
            None => {
                let p = PendingComputation {
                    computation_id,
                    match_id: self.id,
                    requested_turn: self.turn,
                };
                self.phase = Phase::Resolving;
                self.pending = Some(p);
                Ok(p)
            },
        }
    }

    /// Packages the current commitments into exactly one outbound
    /// computation request: both ciphertext bundles, unmodified and
    /// uninspected, with the caller's fresh session-key-exchange parameter
    /// and nonce. Gated by `request_resolution`.
    pub fn resolve_turn(&mut self, computation_offset: u64, pubkey: [u8; 32], nonce: u128) -> (r:
        Result<ComputationRequest, GameError>)
        ensures
            r is Ok <==> old(self).p1_committed && old(self).p2_committed && old(
                self,
            ).pending is None,
            r matches Err(e) ==> *final(self) == *old(self) && (e is WaitingForMoves <==> !(old(
                self,
            ).p1_committed && old(self).p2_committed)),
            r matches Err(e) ==> (e is ComputationAlreadyOutstanding <==> old(self).p1_committed
                && old(self).p2_committed),
            r matches Ok(req) ==> req == (ComputationRequest {
                computation_id: computation_offset,
                result_encryption_pubkey: pubkey,
                nonce,
                p1_move_type: old(self).p1_move_type,
                p1_move_power: old(self).p1_move_power,
                p2_move_type: old(self).p2_move_type,
                p2_move_power: old(self).p2_move_power,
            }) && *final(self) == (GameState {
                phase: Phase::Resolving,
                pending: Some(
                    PendingComputation {
                        computation_id: computation_offset,
                        match_id: old(self).id,
                        requested_turn: old(self).turn,
                    },
                ),
                ..*old(self)
            }),
            old(self).wf() ==> final(self).wf(),
    {
        match self.request_resolution(computation_offset) {
            Err(e) => Err(e),
            Ok(_) => Ok(
                ComputationRequest {
                    computation_id: computation_offset,
                    result_encryption_pubkey: pubkey,
                    nonce,
                    p1_move_type: self.p1_move_type,
                    p1_move_power: self.p1_move_power,
                    p2_move_type: self.p2_move_type,
                    p2_move_power: self.p2_move_power,
                },
            ),
        }
    }

    /// Applies a verified computation result: the single mutation path by
    /// which a result reaches durable match state. A ticket whose match or
    /// turn has been superseded is rejected as stale and nothing changes;
    /// otherwise both committed flags clear, the turn advances, and the
    /// resolution event is returned for external consumers — exactly once
    /// per turn, since advancing the turn makes every further delivery of
    /// this ticket stale.
    pub fn apply_resolved_outcome(&mut self, pending: &PendingComputation, result: &BattleResult)
        -> (r: Result<RoundEndEvent, ErrorCode>)
        requires
            old(self).turn < u64::MAX,
        ensures
            r is Ok <==> old(self).accepts_outcome(*pending),
            r matches Err(e) ==> e is StaleComputation && *final(self) == *old(self),
            r matches Ok(ev) ==> *final(self) == old(self).resolved_state() && ev
                == resolution_event(*old(self), *result),
            old(self).wf() ==> final(self).wf(),
    {
        let stale: bool = pending.match_id != self.id || pending.requested_turn != self.turn;
        if stale {
            return Err(ErrorCode::StaleComputation);
        }
        self.p1_committed = false;
        self.p2_committed = false;
        let resolved_turn: u64 = self.turn;
        self.turn = self.turn + 1;
        self.phase = Phase::AwaitingMoves;
        self.pending = None;
        Ok(
            RoundEndEvent {
                game: self.id,
                winner_id: #[verifier::truncate] (result.winner as u8),
                damage: result.damage,
                turn: resolved_turn,
            },
        )
    }

    /// Consumes one callback from the secure-computation network, already
    /// checked for provenance: an abort leaves the match untouched in the
    /// resolving phase; a verified output has its two fixed-width fields
    /// decoded and applied through `apply_resolved_outcome`.
    pub fn resolve_duel_callback(&mut self, pending: &PendingComputation, output: &CallbackOutcome)
        -> (r: Result<RoundEndEvent, ErrorCode>)
        requires
            old(self).turn < u64::MAX,
        ensures
            r is Ok <==> output is Verified && old(self).accepts_outcome(*pending),
            output is Aborted ==> (r matches Err(e) && e is AbortedComputation && *final(self)
                == *old(self)),
            output is Verified && !old(self).accepts_outcome(*pending) ==> (r matches Err(e)
                && e is StaleComputation && *final(self) == *old(self)),
            output is Verified && old(self).accepts_outcome(*pending) ==> *final(self) == old(
                self,
            ).resolved_state() && r == Ok::<RoundEndEvent, ErrorCode>(
                resolution_event(*old(self), decoded_result(output->Verified_0)),
            ),
            old(self).wf() ==> final(self).wf(),
    {
        let o = match output {
            CallbackOutcome::Aborted => {
                return Err(ErrorCode::AbortedComputation);
            },
            CallbackOutcome::Verified(o) => o,
        };
        let winner: u64 = u64_from_le_prefix(&o.winner_block);
        let damage: u64 = u64_from_le_prefix(&o.damage_block);
        self.apply_resolved_outcome(pending, &BattleResult { winner, damage })
    }
}

/// Law: a result is applied at most once. Once a state accepts a ticket and
/// resolves, the advanced turn makes the very same ticket stale, so a
/// duplicate delivery is rejected and changes nothing.
pub proof fn lemma_duplicate_delivery_is_stale(m: GameState, p: PendingComputation)
    requires
        m.accepts_outcome(p),
        m.turn < u64::MAX,
    ensures
        !m.resolved_state().accepts_outcome(p),
{
}

/// Law: ordering. A match that has advanced past the turn a ticket was issued
/// for never accepts that ticket again, so a reordered or delayed callback
/// cannot corrupt a later turn's commitments.
pub proof fn lemma_superseded_turn_is_rejected(m: GameState, p: PendingComputation)
    requires
        m.turn > p.requested_turn,
    ensures
        !m.accepts_outcome(p),
{
}

} // verus!
