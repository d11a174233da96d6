//! Top-level verifier: route decoding, route well-formedness, the terminal
//! predicates on the final player state, and the score list.

use vstd::prelude::*;
use vstd::arithmetic::div_mod::{
    lemma_div_denominator, lemma_fundamental_div_mod, lemma_fundamental_div_mod_converse,
};
use crate::model::{GameConfig, GameError, PlayerState};
use crate::simulator::{simulate_game, spec_simulate};

verus! {

/// The little-endian 32-bit word starting at byte `4 * i`.
pub open spec fn spec_word_at(bytes: Seq<u8>, i: int) -> u32 {
    (bytes[4 * i] + 256 * bytes[4 * i + 1] + 65536 * bytes[4 * i + 2] + 16777216 * bytes[4 * i
        + 3]) as u32
}

/// The node sequence encoded by a route byte stream whose length is a
/// multiple of 4.
pub open spec fn spec_parse_route(bytes: Seq<u8>) -> Seq<u32> {
    Seq::new((bytes.len() / 4) as nat, |i: int| spec_word_at(bytes, i))
}

/// Byte `j` (0 to 3) of the little-endian encoding of `w`.
pub open spec fn spec_byte_of(w: u32, j: int) -> u8 {
    if j == 0 {
        (w as int % 256) as u8
    } else if j == 1 {
        (w as int / 256 % 256) as u8
    } else if j == 2 {
        (w as int / 65536 % 256) as u8
    } else {
        (w as int / 16777216 % 256) as u8
    }
}

/// The little-endian byte stream encoding a node sequence.
pub open spec fn spec_encode_route(xs: Seq<u32>) -> Seq<u8> {
    Seq::new(4 * xs.len(), |k: int| spec_byte_of(xs[k / 4], k % 4))
}

/// Decode a route byte stream; fails exactly when the length is not a
/// multiple of 4.
pub fn parse_route(bytes: &Vec<u8>) -> (r: Result<Vec<u32>, GameError>)
    ensures
        r is Ok <==> bytes@.len() % 4 == 0,
        r is Ok ==> r->Ok_0@ == spec_parse_route(bytes@),
        r is Err ==> r->Err_0 == GameError::MalformedRoute,
{
    if bytes.len() % 4 != 0 {
        return Err(GameError::MalformedRoute);
    }
    let n = bytes.len() / 4;
    proof {
        lemma_fundamental_div_mod(bytes@.len() as int, 4);
    }
    let mut out: Vec<u32> = Vec::new();
    let mut i: usize = 0;
    while i < n
        invariant
            4 * n == bytes@.len(),
            bytes@.len() <= usize::MAX,
            i <= n,
            out@.len() == i,
            forall|j: int| 0 <= j < i ==> out@[j] == spec_word_at(bytes@, j),
        decreases n - i,
    {
        let b0 = bytes[4 * i] as u32;
        let b1 = bytes[4 * i + 1] as u32;
        let b2 = bytes[4 * i + 2] as u32;
        let b3 = bytes[4 * i + 3] as u32;
        let word = b0 + b1 * 256 + b2 * 65536 + b3 * 16777216;
        out.push(word);
        i = i + 1;
    }
    proof {
        assert(out@ =~= spec_parse_route(bytes@));
    }
    Ok(out)
}

/// Encode a node sequence as a little-endian route byte stream.
pub fn encode_route(route: &Vec<u32>) -> (r: Vec<u8>)
    ensures
        r@ == spec_encode_route(route@),
{
    let n = route.len();
    let mut out: Vec<u8> = Vec::new();
    let mut i: usize = 0;
    while i < n
        invariant
            n == route@.len(),
            i <= n,
            out@.len() == 4 * i,
            forall|k: int|
                0 <= k < 4 * i ==> out@[k] == spec_byte_of(route@[k / 4], k % 4),
        decreases n - i,
    {
        let w = route[i];
        out.push((w % 256) as u8);
        out.push((w / 256 % 256) as u8);
        out.push((w / 65536 % 256) as u8);
        out.push((w / 16777216 % 256) as u8);
        proof {
            assert forall|k: int| 0 <= k < 4 * (i + 1) implies out@[k] == spec_byte_of(
                route@[k / 4],
                k % 4,
            ) by {
                if k < 4 * i {
                } else {
                    let j = k - 4 * i;
                    lemma_fundamental_div_mod_converse(k, 4, i as int, j);
                }
            }
        }
        i = i + 1;
    }
    out
}

/// A 32-bit word equals the recombination of its four little-endian bytes.
proof fn lemma_word_decompose(w: u32)
    ensures
        w as int == (w as int % 256) + 256 * (w as int / 256 % 256) + 65536 * (w as int / 65536
            % 256) + 16777216 * (w as int / 16777216 % 256),
{
    let x = w as int;
    lemma_fundamental_div_mod(x, 256);
    lemma_fundamental_div_mod(x / 256, 256);
    lemma_div_denominator(x, 256, 256);
    lemma_fundamental_div_mod(x / 65536, 256);
    lemma_div_denominator(x, 65536, 256);
    assert(0 <= x / 16777216 < 256) by (nonlinear_arith)
        requires
            0 <= x < 0x1_0000_0000,
    ;
    assert(x / 16777216 % 256 == x / 16777216) by {
        vstd::arithmetic::div_mod::lemma_small_mod((x / 16777216) as nat, 256);
    }
}

/// Decoding inverts encoding: the byte stream of any node sequence has a
/// length that is a multiple of 4 and parses back to the same sequence.
pub proof fn lemma_route_round_trip(xs: Seq<u32>)
    ensures
        spec_encode_route(xs).len() % 4 == 0,
        spec_parse_route(spec_encode_route(xs)) == xs,
{
    let enc = spec_encode_route(xs);
    assert(enc.len() == 4 * xs.len());
    assert(enc.len() % 4 == 0) by (nonlinear_arith)
        requires
            enc.len() == 4 * xs.len(),
    ;
    assert(enc.len() / 4 == xs.len()) by (nonlinear_arith)
        requires
            enc.len() == 4 * xs.len(),
    ;
    assert forall|i: int| 0 <= i < xs.len() implies spec_parse_route(enc)[i] == xs[i] by {
        assert forall|j: int| 0 <= j < 4 implies enc[4 * i + j] == spec_byte_of(xs[i], j) by {
            lemma_fundamental_div_mod_converse(4 * i + j, 4, i, j);
        }
        lemma_word_decompose(xs[i]);
        assert(spec_word_at(enc, i) == xs[i]);
    }
    assert(spec_parse_route(enc) =~= xs);
}

/// Structural route check: `Ok` exactly when the route is non-empty and ends
/// with the terminator node 1.
pub fn verify_route(route: &Vec<u32>) -> (r: Result<(), GameError>)
    ensures
        route@.len() == 0 ==> r == Err::<(), GameError>(GameError::EmptyRoute),
        route@.len() > 0 && route@.last() != 1u32 ==> r == Err::<(), GameError>(
            GameError::MissingTerminator,
        ),
        route@.len() > 0 && route@.last() == 1u32 ==> r is Ok,
{
    if route.len() == 0 {
        return Err(GameError::EmptyRoute);
    }
    if route[route.len() - 1] != 1u32 {
        return Err(GameError::MissingTerminator);
    }
    Ok(())
}

/// Terminal-state check: `Ok` exactly when the player survived with no debt
/// left in either pool.
pub fn verify_final_state(state: &PlayerState) -> (r: Result<(), GameError>)
    ensures
        state.hp <= 0 ==> r == Err::<(), GameError>(GameError::PlayerDead),
        state.hp > 0 && (state.salt != 0 || state.big_salt != 0) ==> r == Err::<(), GameError>(
            GameError::OutstandingDebt,
        ),
        state.hp > 0 && state.salt == 0 && state.big_salt == 0 ==> r is Ok,
{
    if state.hp <= 0 {
        return Err(GameError::PlayerDead);
    }
    if state.salt != 0 || state.big_salt != 0 {
        return Err(GameError::OutstandingDebt);
    }
    Ok(())
}

/// The score of a final state: its hp.
pub fn calculate_score(state: &PlayerState) -> (r: i64)
    ensures
        r == state.hp as i64,
{
    state.hp as i64
}

/// The whole decision of the verifier on a configuration and a route byte
/// stream: the score list of an accepted route, or the first error raised.
pub open spec fn spec_do_main(c: GameConfig, bytes: Seq<u8>) -> Result<Seq<i64>, GameError> {
    if bytes.len() % 4 != 0 {
        Err(GameError::MalformedRoute)
    } else {
        let route = spec_parse_route(bytes);
        if route.len() == 0 {
            Err(GameError::EmptyRoute)
        } else if route.last() != 1u32 {
            Err(GameError::MissingTerminator)
        } else {
            match spec_simulate(c, route) {
                Err(e) => Err(e),
                Ok(p) => if p.hp <= 0 {
                    Err(GameError::PlayerDead)
                } else if p.salt != 0 || p.big_salt != 0 {
                    Err(GameError::OutstandingDebt)
                } else {
                    Ok(seq![p.hp as i64])
                },
            }
        }
    }
}

/// Parse and validate the route, simulate it, check the terminal predicates,
/// and return the score list.
pub fn do_main(config: &GameConfig, route_bytes: &Vec<u8>) -> (r: Result<Vec<i64>, GameError>)
    requires
        config.wf(),
    ensures
        ({
            let s = spec_do_main(*config, route_bytes@);
            &&& (r is Ok <==> s is Ok)
            &&& (r is Ok ==> r->Ok_0@ == s->Ok_0)
            &&& (r is Err ==> r->Err_0 == s->Err_0)
        }),
{
    let route = match parse_route(route_bytes) {
        Ok(route) => route,
        Err(e) => {
            return Err(e);
        },
    };
    match verify_route(&route) {
        Ok(()) => {},
        Err(e) => {
            return Err(e);
        },
    }
    let final_state = match simulate_game(config, &route) {
        Ok(p) => p,
        Err(e) => {
            return Err(e);
        },
    };
    match verify_final_state(&final_state) {
        Ok(()) => {},
        Err(e) => {
            return Err(e);
        },
    }
    let mut scores: Vec<i64> = Vec::new();
    scores.push(calculate_score(&final_state));
    proof {
        assert(scores@ =~= seq![final_state.hp as i64]);
    }
    Ok(scores)
}

} // verus!
