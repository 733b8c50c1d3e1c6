//! Feed-line coupling: a two-row run of pipe couplings, each a straight or
//! an elbow at one of four turns, to be turned with a wrench until the feed
//! runs from the inlet on the left of the top row to the drain on the right
//! of the bottom row.
//!
//! A tile's faces are numbered clockwise, north 1, east 2, south 4, west 8,
//! so a set of faces is a number below 16 and turning a piece a quarter turn
//! clockwise moves every face on to the next.

use vstd::prelude::*;

use crate::input::{Key, KeyInput};
use crate::minigame_keys::MinigameKeys;
use crate::minigames::{MinigameAudioCue, MinigameOutcome};
use crate::puzzles::{scramble, scramble_spec};
use crate::text::{decimal, push_decimal, push_str};
use crate::chance::random_seed;
use vstd::string::StringExecFns;

verus! {

pub const PIPE_COLS: usize = 4;
pub const PIPE_ROWS: usize = 2;
pub const PIPE_TILES: usize = 8;

pub const NORTH: u8 = 1;
pub const EAST: u8 = 2;
pub const SOUTH: u8 = 4;
pub const WEST: u8 = 8;

/// The feed enters the first tile's west face and leaves the last one's east.
pub const INLET_TILE: usize = 0;
pub const DRAIN_TILE: usize = 7;

/// How long a made-up run is held on screen before it is signed off, in
/// microseconds.
pub const LOCKED_HOLD_MICROS: u64 = 900_000;

#[derive(Debug, Clone, Copy, PartialEq, Eq, Structural)]
pub enum PipePiece {
    Straight,
    Elbow,
}

/// One coupling: a piece, and how many quarter turns clockwise it has been
/// given off its seated position.
#[derive(Debug, Clone, Copy, PartialEq, Eq, Structural)]
pub struct Coupling {
    pub piece: PipePiece,
    pub quarters: u8,
}

// ---------------------------------------------------------------------------
// Faces
// ---------------------------------------------------------------------------

/// Which faces a piece opens onto before it is turned: a straight west and
/// east, an elbow west and south.
pub open spec fn seated_faces(piece: PipePiece) -> int {
    match piece {
        PipePiece::Straight => 10,
        PipePiece::Elbow => 12,
    }
}

/// A set of faces turned a quarter turn clockwise.
pub open spec fn rot1(faces: int) -> int {
    (2 * faces) % 16 + faces / 8
}

/// A set of faces (taken below 16) turned `quarters` quarter turns clockwise.
pub open spec fn turned_faces(faces: int, quarters: nat) -> int
    decreases quarters,
{
    if quarters == 0 {
        faces % 16
    } else {
        rot1(turned_faces(faces, (quarters - 1) as nat))
    }
}

/// Whether a set of faces includes the single face `face`.
pub open spec fn has_face(faces: int, face: int) -> bool {
    (faces / face) % 2 == 1
}

/// How many faces a set of faces opens onto.
pub open spec fn face_count(faces: int) -> int {
    faces % 2 + (faces / 2) % 2 + (faces / 4) % 2 + (faces / 8) % 2
}

/// The face of the neighbouring tile that `face` opens onto.
pub open spec fn facing_face(face: int) -> int {
    turned_faces(face, 2)
}

/// The faces a coupling opens onto.
pub open spec fn coupling_faces(c: Coupling) -> int {
    turned_faces(seated_faces(c.piece), (c.quarters % 4) as nat)
}

/// The tile that `face` of tile `index` leads to, or none at the edge of the
/// grid.
pub open spec fn neighbour_tile(index: int, face: int) -> Option<int> {
    let row = index / 4;
    let column = index % 4;
    if face == 1 && row > 0 {
        Some(index - 4)
    } else if face == 4 && row + 1 < 2 {
        Some(index + 4)
    } else if face == 8 && column > 0 {
        Some(index - 1)
    } else if face == 2 && column + 1 < 4 {
        Some(index + 1)
    } else {
        None
    }
}

/// The piece that opens onto exactly `faces` at some turn, if either does:
/// a straight for west-east or north-south, an elbow for any two adjacent
/// faces.
pub open spec fn piece_opening_onto(faces: int) -> Option<PipePiece> {
    if faces == 10 || faces == 5 {
        Some(PipePiece::Straight)
    } else if faces == 12 || faces == 9 || faces == 3 || faces == 6 {
        Some(PipePiece::Elbow)
    } else {
        None
    }
}

/// What each piece opens onto at each turn, and what each single face looks
/// out onto.
pub proof fn lemma_turn_table()
    ensures
        turned_faces(10, 0) == 10,
        turned_faces(10, 1) == 5,
        turned_faces(10, 2) == 10,
        turned_faces(10, 3) == 5,
        turned_faces(12, 0) == 12,
        turned_faces(12, 1) == 9,
        turned_faces(12, 2) == 3,
        turned_faces(12, 3) == 6,
        facing_face(1) == 4,
        facing_face(4) == 1,
        facing_face(2) == 8,
        facing_face(8) == 2,
{
    reveal_with_fuel(turned_faces, 4);
}

/// However it is turned, every piece opens onto exactly two faces, which is
/// what lets the feed be followed as a single thread.
pub proof fn law_every_piece_has_two_openings(c: Coupling)
    ensures
        face_count(coupling_faces(c)) == 2,
        coupling_faces(c) == 10 || coupling_faces(c) == 5 || coupling_faces(c) == 12
            || coupling_faces(c) == 9 || coupling_faces(c) == 3 || coupling_faces(c) == 6,
{
    lemma_turn_table();
}

/// Turns a set of faces `quarters` quarter turns clockwise.
pub fn turn(faces: u8, quarters: u8) -> (t: u8)
    ensures
        t == turned_faces(faces as int, (quarters % 4) as nat),
        t < 16,
{
    let mut turned: u8 = faces % 16;
    let mut done: u8 = 0;
    while done < quarters % 4
        invariant
            done <= quarters % 4,
            turned < 16,
            turned == turned_faces(faces as int, done as nat),
        decreases quarters % 4 - done,
    {
        turned = (turned * 2) % 16 + turned / 8;
        done = done + 1;
    }
    turned
}

/// The face of the neighbouring tile that `face` looks onto.
pub fn facing(face: u8) -> (f: u8)
    ensures
        f == facing_face(face as int),
{
    turn(face, 2)
}

/// The tile `face` leads to, or `None` at the edge of the grid.
pub fn neighbour(index: usize, face: u8) -> (n: Option<usize>)
    requires
        index < PIPE_TILES,
    ensures
        n matches Some(next) ==> neighbour_tile(index as int, face as int) == Some(next as int)
            && next < PIPE_TILES,
        n is None ==> neighbour_tile(index as int, face as int) is None,
{
    let row = index / PIPE_COLS;
    let column = index % PIPE_COLS;
    if face == NORTH && row > 0 {
        Some(index - PIPE_COLS)
    } else if face == SOUTH && row + 1 < PIPE_ROWS {
        Some(index + PIPE_COLS)
    } else if face == WEST && column > 0 {
        Some(index - 1)
    } else if face == EAST && column + 1 < PIPE_COLS {
        Some(index + 1)
    } else {
        None
    }
}

impl PipePiece {
    /// Which faces the piece opens onto before it is turned.
    pub fn seated(self) -> (faces: u8)
        ensures
            faces == seated_faces(self),
    {
        match self {
            PipePiece::Straight => 10,
            PipePiece::Elbow => 12,
        }
    }

    /// The piece that opens onto exactly `faces` at some turn, if either
    /// does; a straight is preferred where both would.
    pub fn opening_onto(faces: u8) -> (piece: Option<PipePiece>)
        ensures
            piece == piece_opening_onto(faces as int),
    {
        proof {
            lemma_turn_table();
        }
        let mut turns: u8 = 0;
        while turns < 4
            invariant
                turns <= 4,
                forall|q: nat| q < turns ==> turned_faces(10, q) != faces,
            decreases 4 - turns,
        {
            proof {
                lemma_turn_table();
            }
            if turn(PipePiece::Straight.seated(), turns) == faces {
                proof {
                    lemma_turn_table();
                    if turns == 0 {} else if turns == 1 {} else if turns == 2 {} else {}
                }
                return Some(PipePiece::Straight);
            }
            turns = turns + 1;
        }
        let mut turns: u8 = 0;
        while turns < 4
            invariant
                turns <= 4,
                forall|q: nat| q < turns ==> turned_faces(12, q) != faces,
                faces != 10 && faces != 5,
            decreases 4 - turns,
        {
            proof {
                lemma_turn_table();
            }
            if turn(PipePiece::Elbow.seated(), turns) == faces {
                proof {
                    lemma_turn_table();
                    if turns == 0 {} else if turns == 1 {} else if turns == 2 {} else {}
                }
                return Some(PipePiece::Elbow);
            }
            turns = turns + 1;
        }
        None
    }
}

impl Coupling {
    /// The faces the coupling currently opens onto.
    pub fn openings(self) -> (faces: u8)
        ensures
            faces == coupling_faces(self),
            faces < 16,
    {
        turn(self.piece.seated(), self.quarters)
    }

    /// The coupling given one more quarter turn.
    pub fn turned(self) -> (c: Self)
        ensures
            c.piece == self.piece,
            c.quarters == (self.quarters + 1) % 4,
    {
        Coupling { piece: self.piece, quarters: (self.quarters % 4 + 1) % 4 }
    }
}

// ---------------------------------------------------------------------------
// Following the feed
// ---------------------------------------------------------------------------

/// Follows the feed from `index`, which it enters by `entering`, for at most
/// `fuel` more couplings: which couplings end up wet, and whether the feed
/// leaves by the drain. A coupling that does not open onto the face the feed
/// arrives on stops it; so does running back into a wet coupling, or out of
/// any edge but the drain's east face.
pub open spec fn walk(
    couplings: Seq<Coupling>,
    index: int,
    entering: int,
    wet: Seq<bool>,
    fuel: nat,
) -> (Seq<bool>, bool)
    decreases fuel,
{
    if fuel == 0 {
        (wet, false)
    } else {
        let openings = coupling_faces(couplings[index]);
        if !has_face(openings, entering) {
            (wet, false)
        } else {
            let now_wet = wet.update(index, true);
            let leaving = openings - entering;
            match neighbour_tile(index, leaving) {
                None => (now_wet, index == DRAIN_TILE && leaving == EAST),
                Some(next) => if now_wet[next] {
                    (now_wet, false)
                } else {
                    walk(couplings, next, facing_face(leaving), now_wet, (fuel - 1) as nat)
                },
            }
        }
    }
}

/// The feed followed in from the inlet: which couplings it fills, and
/// whether it makes the drain.
pub open spec fn trace_of(couplings: Seq<Coupling>) -> (Seq<bool>, bool) {
    walk(couplings, INLET_TILE as int, WEST as int, Seq::new(PIPE_TILES as nat, |i: int| false), PIPE_TILES as nat)
}

/// Whether the feed runs from the inlet to the drain.
pub open spec fn flows(couplings: Seq<Coupling>) -> bool {
    trace_of(couplings).1
}

/// A piece entered by one face lets the feed out by exactly one other face.
#[verifier::spinoff_prover]
#[verifier::rlimit(40)]
proof fn lemma_one_face_out(o: int, e: int)
    requires
        o == 10 || o == 5 || o == 12 || o == 9 || o == 3 || o == 6,
        e == 1 || e == 2 || e == 4 || e == 8,
        has_face(o, e),
    ensures
        o - e == 1 || o - e == 2 || o - e == 4 || o - e == 8,
        has_face(o, o - e),
{
    if o == 10 {
        if e == 1 {
            assert(!has_face(10, 1));
        }
        if e == 2 {
            assert(has_face(10, 2));
            assert(has_face(10, 8));
        }
        if e == 4 {
            assert(!has_face(10, 4));
        }
        if e == 8 {
            assert(has_face(10, 8));
            assert(has_face(10, 2));
        }
    }
    if o == 5 {
        if e == 1 {
            assert(has_face(5, 1));
            assert(has_face(5, 4));
        }
        if e == 2 {
            assert(!has_face(5, 2));
        }
        if e == 4 {
            assert(has_face(5, 4));
            assert(has_face(5, 1));
        }
        if e == 8 {
            assert(!has_face(5, 8));
        }
    }
    if o == 12 {
        if e == 1 {
            assert(!has_face(12, 1));
        }
        if e == 2 {
            assert(!has_face(12, 2));
        }
        if e == 4 {
            assert(has_face(12, 4));
            assert(has_face(12, 8));
        }
        if e == 8 {
            assert(has_face(12, 8));
            assert(has_face(12, 4));
        }
    }
    if o == 9 {
        if e == 1 {
            assert(has_face(9, 1));
            assert(has_face(9, 8));
        }
        if e == 2 {
            assert(!has_face(9, 2));
        }
        if e == 4 {
            assert(!has_face(9, 4));
        }
        if e == 8 {
            assert(has_face(9, 8));
            assert(has_face(9, 1));
        }
    }
    if o == 3 {
        if e == 1 {
            assert(has_face(3, 1));
            assert(has_face(3, 2));
        }
        if e == 2 {
            assert(has_face(3, 2));
            assert(has_face(3, 1));
        }
        if e == 4 {
            assert(!has_face(3, 4));
        }
        if e == 8 {
            assert(!has_face(3, 8));
        }
    }
    if o == 6 {
        if e == 1 {
            assert(!has_face(6, 1));
        }
        if e == 2 {
            assert(has_face(6, 2));
            assert(has_face(6, 4));
        }
        if e == 4 {
            assert(has_face(6, 4));
            assert(has_face(6, 2));
        }
        if e == 8 {
            assert(!has_face(6, 8));
        }
    }
}

/// The feed only counts as drained by leaving through the drain: wherever it
/// is followed from, if it drains then the drain coupling is wet and opens
/// onto the east edge.
proof fn lemma_drained_through_the_drain(
    c: Seq<Coupling>,
    index: int,
    entering: int,
    wet: Seq<bool>,
    fuel: nat,
)
    requires
        c.len() == PIPE_TILES,
        0 <= index < PIPE_TILES,
        entering == 1 || entering == 2 || entering == 4 || entering == 8,
        wet.len() == PIPE_TILES,
    ensures
        walk(c, index, entering, wet, fuel).0.len() == PIPE_TILES,
        walk(c, index, entering, wet, fuel).1 ==> walk(c, index, entering, wet, fuel).0[DRAIN_TILE as int]
            && has_face(coupling_faces(c[DRAIN_TILE as int]), EAST as int),
    decreases fuel,
{
    if fuel > 0 {
        let openings = coupling_faces(c[index]);
        if has_face(openings, entering) {
            law_every_piece_has_two_openings(c[index]);
            lemma_one_face_out(openings, entering);
            lemma_turn_table();
            let now_wet = wet.update(index, true);
            let leaving = openings - entering;
            match neighbour_tile(index, leaving) {
                None => {},
                Some(next) => {
                    assert(0 <= next < PIPE_TILES);
                    if !now_wet[next] {
                        lemma_drained_through_the_drain(
                            c,
                            next,
                            facing_face(leaving),
                            now_wet,
                            (fuel - 1) as nat,
                        );
                    }
                },
            }
        }
    }
}

/// The feed counts as drained only if it leaves the grid through the drain:
/// when the run flows, the drain coupling is wet and opens onto the east
/// edge. Running out of any other edge is a capped stub and drains nothing.
pub proof fn law_the_feed_drains_only_through_the_drain(c: Seq<Coupling>)
    requires
        c.len() == PIPE_TILES,
    ensures
        flows(c) ==> trace_of(c).0[DRAIN_TILE as int] && has_face(
            coupling_faces(c[DRAIN_TILE as int]),
            EAST as int,
        ),
{
    lemma_drained_through_the_drain(
        c,
        INLET_TILE as int,
        WEST as int,
        Seq::new(PIPE_TILES as nat, |i: int| false),
        PIPE_TILES as nat,
    );
}

/// Follows the feed in from the inlet over `couplings`.
pub fn trace_couplings(couplings: &Vec<Coupling>) -> (result: (Vec<bool>, bool))
    requires
        couplings@.len() == PIPE_TILES,
    ensures
        (result.0@, result.1) == trace_of(couplings@),
{
    let mut wet: Vec<bool> = Vec::new();
    let mut k: usize = 0;
    while k < PIPE_TILES
        invariant
            k <= PIPE_TILES,
            wet@ =~= Seq::new(k as nat, |i: int| false),
        decreases PIPE_TILES - k,
    {
        wet.push(false);
        k = k + 1;
    }
    let mut index: usize = INLET_TILE;
    let mut entering: u8 = WEST;
    let mut steps: usize = 0;
    while steps < PIPE_TILES
        invariant
            couplings@.len() == PIPE_TILES,
            steps <= PIPE_TILES,
            index < PIPE_TILES,
            wet@.len() == PIPE_TILES,
            entering == 1 || entering == 2 || entering == 4 || entering == 8,
            walk(couplings@, index as int, entering as int, wet@, (PIPE_TILES - steps) as nat)
                == trace_of(couplings@),
        decreases PIPE_TILES - steps,
    {
        let openings = couplings[index].openings();
        if (openings / entering) % 2 == 0 {
            return (wet, false);
        }
        wet.set(index, true);
        let leaving = openings - entering;
        match neighbour(index, leaving) {
            None => {
                return (wet, index == DRAIN_TILE && leaving == EAST);
            },
            Some(next) => {
                if wet[next] {
                    return (wet, false);
                }
                proof {
                    lemma_turn_table();
                }
                index = next;
                entering = facing(leaving);
            },
        }
        steps = steps + 1;
    }
    (wet, false)
}

// ---------------------------------------------------------------------------
// The deal
// ---------------------------------------------------------------------------

/// The `k`th number rolled while dealing off `seed`: the seed is spread once,
/// then every roll spreads the last one again.
pub open spec fn rolled(seed: u64, k: nat) -> u64
    decreases k,
{
    if k == 0 {
        scramble_spec(scramble_spec(seed))
    } else {
        scramble_spec(rolled(seed, (k - 1) as nat))
    }
}

/// The column in which the dealt path drops from the top row to the bottom.
pub open spec fn drop_column(seed: u64) -> int {
    (rolled(seed, 0) % 4) as int
}

/// The tile the dealt path crosses at step `step` of its five: along the top
/// row to the drop column, then along the bottom row from below it.
pub open spec fn path_tile(drop: int, step: int) -> int {
    if step <= drop {
        step
    } else {
        step + 3
    }
}

/// The step of the path a tile is crossed at, if it is on the path.
pub open spec fn path_step(drop: int, tile: int) -> Option<int> {
    if 0 <= tile <= drop {
        Some(tile)
    } else if 4 + drop <= tile < 8 {
        Some(tile - 3)
    } else {
        None
    }
}

/// The coupling that carries the feed along step `step` of the path: an
/// elbow west-to-south where it drops, an elbow north-to-east where it lands,
/// and a straight everywhere else.
pub open spec fn fitted(drop: int, step: int) -> Coupling {
    if step == drop {
        Coupling { piece: PipePiece::Elbow, quarters: 0 }
    } else if step == drop + 1 {
        Coupling { piece: PipePiece::Elbow, quarters: 2 }
    } else {
        Coupling { piece: PipePiece::Straight, quarters: 0 }
    }
}

/// The junk pipe a tile is dealt before the path is laid over the board.
pub open spec fn junk(seed: u64, tile: int) -> Coupling {
    Coupling {
        piece: if rolled(seed, (1 + 2 * tile) as nat) % 2 == 0 {
            PipePiece::Straight
        } else {
            PipePiece::Elbow
        },
        quarters: (rolled(seed, (2 + 2 * tile) as nat) % 4) as u8,
    }
}

/// The board laid true: the path fitted over the junk.
pub open spec fn made_up_board(seed: u64) -> Seq<Coupling> {
    Seq::new(
        PIPE_TILES as nat,
        |tile: int|
            match path_step(drop_column(seed), tile) {
                Some(step) => fitted(drop_column(seed), step),
                None => junk(seed, tile),
            },
    )
}

/// The board before the last check: every path coupling given a random
/// number of further turns.
pub open spec fn scrambled_board(seed: u64) -> Seq<Coupling> {
    Seq::new(
        PIPE_TILES as nat,
        |tile: int|
            match path_step(drop_column(seed), tile) {
                Some(step) => {
                    let c = fitted(drop_column(seed), step);
                    Coupling {
                        piece: c.piece,
                        quarters: ((c.quarters + rolled(seed, (17 + step) as nat) % 4) % 4) as u8,
                    }
                },
                None => junk(seed, tile),
            },
    )
}

/// The board as the player meets it: the scrambled board, with the inlet
/// coupling turned once more if the scramble happened to leave the run made
/// up.
pub open spec fn dealt_board(seed: u64) -> Seq<Coupling> {
    let board = scrambled_board(seed);
    if flows(board) {
        board.update(
            INLET_TILE as int,
            Coupling {
                piece: board[INLET_TILE as int].piece,
                quarters: ((board[INLET_TILE as int].quarters + 1) % 4) as u8,
            },
        )
    } else {
        board
    }
}

/// One run's board, and the same board with its path laid true.
pub struct Deal {
    /// The couplings as the player meets them.
    pub board: Vec<Coupling>,
    /// The couplings as they carry the feed.
    pub made_up: Vec<Coupling>,
}

/// Keeps rolling the dealer's dice.
struct Dice {
    bits: u64,
    rolls: Ghost<nat>,
    seed: Ghost<u64>,
}

impl Dice {
    spec fn at(&self, seed: u64, k: nat) -> bool {
        self.seed@ == seed && self.rolls@ == k && (k == 0 ==> self.bits == scramble_spec(seed))
            && (k > 0 ==> self.bits == rolled(seed, (k - 1) as nat))
    }

    /// A number below `sides`: the next roll of the dice.
    fn roll(&mut self, sides: u64) -> (n: u64)
        requires
            sides > 0,
            old(self).at(old(self).seed@, old(self).rolls@),
        ensures
            final(self).at(old(self).seed@, old(self).rolls@ + 1),
            n == rolled(old(self).seed@, old(self).rolls@) % sides,
            n < sides,
    {
        proof {
            if self.rolls@ > 0 {
                assert(rolled(self.seed@, self.rolls@) == scramble_spec(
                    rolled(self.seed@, (self.rolls@ - 1) as nat),
                ));
            }
        }
        self.bits = scramble(self.bits);
        self.rolls = Ghost(self.rolls@ + 1);
        self.bits % sides
    }
}

/// The face of tile `from` that its neighbour `to` lies on.
pub fn toward(from: usize, to: usize) -> (face: u8)
    requires
        from < PIPE_TILES,
        exists|f: int|
            (f == 1 || f == 2 || f == 4 || f == 8) && neighbour_tile(from as int, f) == Some(
                to as int,
            ),
    ensures
        face == 1 || face == 2 || face == 4 || face == 8,
        neighbour_tile(from as int, face as int) == Some(to as int),
{
    if neighbour(from, NORTH) == Some(to) {
        NORTH
    } else if neighbour(from, EAST) == Some(to) {
        EAST
    } else if neighbour(from, SOUTH) == Some(to) {
        SOUTH
    } else {
        WEST
    }
}

/// The coupling that carries the feed in by `entering` and out by `leaving`.
fn fit(entering: u8, leaving: u8) -> (c: Coupling)
    requires
        piece_opening_onto(entering + leaving) is Some,
        entering + leaving < 256,
    ensures
        c.piece == piece_opening_onto(entering + leaving).unwrap(),
        c.quarters < 4,
        coupling_faces(c) == entering + leaving,
        forall|q: int| 0 <= q < c.quarters ==> #[trigger] turned_faces(seated_faces(c.piece), q as nat)
            != entering + leaving,
{
    proof {
        lemma_turn_table();
    }
    let openings = entering + leaving;
    let piece = match PipePiece::opening_onto(openings) {
        Some(p) => p,
        None => {
            proof {
                assert(false);
            }
            PipePiece::Straight
        },
    };
    let mut quarters: u8 = 0;
    while quarters < 3 && turn(piece.seated(), quarters) != openings
        invariant
            quarters <= 3,
            piece == piece_opening_onto(openings as int).unwrap(),
            openings == entering + leaving,
            forall|q: int| 0 <= q < quarters ==> #[trigger] turned_faces(seated_faces(piece), q as nat)
                != openings,
        decreases 3 - quarters,
    {
        quarters = quarters + 1;
    }
    Coupling { piece, quarters }
}

/// Deals one run's board off `seed`: a path is drawn from the inlet to the
/// drain and the couplings on it chosen to fit, so there is always an answer;
/// every coupling on the path is then turned at random, and if that happens
/// to leave the run made up, the inlet coupling is turned once more.
pub fn deal(seed: u64) -> (dealt: Deal)
    ensures
        dealt.board@ == dealt_board(seed),
        dealt.made_up@ == made_up_board(seed),
{
    let mut dice = Dice { bits: scramble(seed), rolls: Ghost(0), seed: Ghost(seed) };
    let drop = dice.roll(PIPE_COLS as u64) as usize;
    let mut path: Vec<usize> = Vec::new();
    let mut column: usize = 0;
    while column <= drop
        invariant
            drop < 4,
            column <= drop + 1,
            path@.len() == column,
            forall|s: int| 0 <= s < column ==> #[trigger] path@[s] == path_tile(drop as int, s),
        decreases drop + 1 - column,
    {
        path.push(column);
        column = column + 1;
    }
    let mut column: usize = drop;
    while column < PIPE_COLS
        invariant
            drop < 4,
            drop <= column <= 4,
            path@.len() == column + 1,
            forall|s: int| 0 <= s < path@.len() ==> #[trigger] path@[s] == path_tile(drop as int, s),
        decreases 4 - column,
    {
        path.push(column + PIPE_COLS);
        column = column + 1;
    }
    let mut board: Vec<Coupling> = Vec::new();
    let mut tile: usize = 0;
    while tile < PIPE_TILES
        invariant
            tile <= PIPE_TILES,
            dice.at(seed, (1 + 2 * tile) as nat),
            drop == drop_column(seed),
            path@.len() == 5,
            forall|s: int| 0 <= s < 5 ==> #[trigger] path@[s] == path_tile(drop as int, s),
            board@.len() == tile,
            forall|t: int| 0 <= t < tile ==> #[trigger] board@[t] == junk(seed, t),
        decreases PIPE_TILES - tile,
    {
        let piece = if dice.roll(2) == 0 {
            PipePiece::Straight
        } else {
            PipePiece::Elbow
        };
        let quarters = dice.roll(4) as u8;
        board.push(Coupling { piece, quarters });
        tile = tile + 1;
    }
    let mut made_up: Vec<Coupling> = Vec::new();
    let mut t: usize = 0;
    while t < PIPE_TILES
        invariant
            t <= PIPE_TILES,
            board@.len() == PIPE_TILES,
            made_up@.len() == t,
            forall|i: int| 0 <= i < t ==> #[trigger] made_up@[i] == board@[i],
        decreases PIPE_TILES - t,
    {
        made_up.push(board[t]);
        t = t + 1;
    }
    let mut step: usize = 0;
    while step < path.len()
        invariant
            0 <= step <= 5,
            path@.len() == 5,
            drop < 4,
            drop == drop_column(seed),
            forall|s: int| 0 <= s < 5 ==> #[trigger] path@[s] == path_tile(drop as int, s),
            dice.at(seed, (17 + step) as nat),
            board@.len() == PIPE_TILES,
            made_up@.len() == PIPE_TILES,
            forall|i: int|
                0 <= i < PIPE_TILES ==> #[trigger] made_up@[i] == match path_step(drop as int, i) {
                    Some(s) => if s < step {
                        fitted(drop as int, s)
                    } else {
                        junk(seed, i)
                    },
                    None => junk(seed, i),
                },
            forall|i: int|
                0 <= i < PIPE_TILES ==> #[trigger] board@[i] == match path_step(drop as int, i) {
                    Some(s) => if s < step {
                        scrambled_board(seed)[i]
                    } else {
                        junk(seed, i)
                    },
                    None => junk(seed, i),
                },
        decreases 5 - step,
    {
        let index = path[step];
        proof {
            lemma_turn_table();
        }
        let entering: u8 = if step == 0 {
            WEST
        } else {
            let previous = path[step - 1];
            proof {
                if step as int == drop + 1 {
                    assert(neighbour_tile(previous as int, 4) == Some(index as int));
                } else {
                    assert(neighbour_tile(previous as int, 2) == Some(index as int));
                }
            }
            facing(toward(previous, index))
        };
        let leaving: u8 = if step + 1 < path.len() {
            let next = path[step + 1];
            proof {
                if step as int == drop {
                    assert(neighbour_tile(index as int, 4) == Some(next as int));
                } else {
                    assert(neighbour_tile(index as int, 2) == Some(next as int));
                }
            }
            toward(index, next)
        } else {
            EAST
        };
        proof {
            assert(entering == (if step as int == drop + 1 { 1u8 } else { 8u8 }));
            assert(leaving == (if step as int == drop { 4u8 } else { 2u8 }));
        }
        let c = fit(entering, leaving);
        assert(c == fitted(drop as int, step as int));
        made_up.set(index, c);
        let extra = dice.roll(4) as u8;
        board.set(index, Coupling { piece: c.piece, quarters: (c.quarters + extra) % 4 });
        step = step + 1;
    }
    proof {
        assert(made_up@ =~= made_up_board(seed));
        assert(board@ =~= scrambled_board(seed));
    }
    let flowing = trace_couplings(&board).1;
    if flowing {
        let inlet = board[INLET_TILE].turned();
        board.set(INLET_TILE, inlet);
    }
    proof {
        assert(board@ =~= dealt_board(seed));
    }
    Deal { board, made_up }
}


// ---------------------------------------------------------------------------
// What the deal guarantees
// ---------------------------------------------------------------------------

/// The face the feed arrives by at step `step` of the path.
pub open spec fn path_entering(drop: int, step: int) -> int {
    if step == drop + 1 {
        1
    } else {
        8
    }
}

/// One step along a laid path: the feed goes in by the face it should, out
/// by the next, and on to the next tile of the path.
proof fn lemma_path_step(c: Seq<Coupling>, drop: int, step: int, wet: Seq<bool>, fuel: nat)
    requires
        c.len() == PIPE_TILES,
        wet.len() == PIPE_TILES,
        0 <= drop < 4,
        0 <= step < 4,
        fuel >= 1,
        c[path_tile(drop, step)] == fitted(drop, step),
        !wet[path_tile(drop, step + 1)],
    ensures
        walk(c, path_tile(drop, step), path_entering(drop, step), wet, fuel) == walk(
            c,
            path_tile(drop, step + 1),
            path_entering(drop, step + 1),
            wet.update(path_tile(drop, step), true),
            (fuel - 1) as nat,
        ),
{
    lemma_turn_table();
    let tile = path_tile(drop, step);
    let o = coupling_faces(c[tile]);
    if step < drop {
        assert(o == 10);
    } else if step == drop {
        assert(o == 12);
    } else if step == drop + 1 {
        assert(o == 3);
    } else {
        assert(o == 10);
    }
}

/// The last step of a laid path: the feed leaves the last tile by the drain.
proof fn lemma_path_end(c: Seq<Coupling>, drop: int, wet: Seq<bool>, fuel: nat)
    requires
        c.len() == PIPE_TILES,
        wet.len() == PIPE_TILES,
        0 <= drop < 4,
        fuel >= 1,
        c[path_tile(drop, 4)] == fitted(drop, 4),
    ensures
        walk(c, path_tile(drop, 4), path_entering(drop, 4), wet, fuel).1,
{
    lemma_turn_table();
    let o = coupling_faces(c[path_tile(drop, 4)]);
    if drop == 3 {
        assert(o == 3);
    } else {
        assert(o == 10);
    }
}

/// Any board whose path tiles are fitted carries the feed to the drain.
pub proof fn lemma_fitted_path_flows(c: Seq<Coupling>, drop: int)
    requires
        c.len() == PIPE_TILES,
        0 <= drop < 4,
        forall|step: int| 0 <= step < 5 ==> c[#[trigger] path_tile(drop, step)] == fitted(drop, step),
    ensures
        flows(c),
{
    let w0 = Seq::new(PIPE_TILES as nat, |i: int| false);
    let t0 = path_tile(drop, 0);
    let t1 = path_tile(drop, 1);
    let t2 = path_tile(drop, 2);
    let t3 = path_tile(drop, 3);
    let t4 = path_tile(drop, 4);
    let w1 = w0.update(t0, true);
    let w2 = w1.update(t1, true);
    let w3 = w2.update(t2, true);
    let w4 = w3.update(t3, true);
    assert(c[t0] == fitted(drop, 0));
    assert(c[t1] == fitted(drop, 1));
    assert(c[t2] == fitted(drop, 2));
    assert(c[t3] == fitted(drop, 3));
    assert(c[t4] == fitted(drop, 4));
    lemma_path_step(c, drop, 0, w0, 8);
    lemma_path_step(c, drop, 1, w1, 7);
    lemma_path_step(c, drop, 2, w2, 6);
    lemma_path_step(c, drop, 3, w3, 5);
    lemma_path_end(c, drop, w4, 4);
}

/// Whether a board can be made to carry the feed by turning its couplings
/// alone: some board with the same piece on every tile flows.
pub open spec fn can_be_made_up(board: Seq<Coupling>) -> bool {
    exists|answer: Seq<Coupling>|
        #[trigger] flows(answer) && answer.len() == board.len() && forall|i: int|
            0 <= i < board.len() ==> answer[i].piece == board[i].piece
}

/// Every board dealt has an answer: the same board with its path laid true
/// carries the feed, and it holds the same pieces, so it is reached by
/// turning couplings rather than swapping them.
pub proof fn law_every_dealt_board_can_be_made_up(seed: u64)
    ensures
        flows(made_up_board(seed)),
        dealt_board(seed).len() == made_up_board(seed).len(),
        forall|i: int|
            0 <= i < PIPE_TILES ==> #[trigger] dealt_board(seed)[i].piece == made_up_board(seed)[i].piece,
{
    let drop = drop_column(seed);
    let m = made_up_board(seed);
    assert forall|step: int| 0 <= step < 5 implies m[#[trigger] path_tile(drop, step)] == fitted(drop, step) by {
        assert(path_step(drop, path_tile(drop, step)) == Some(step));
    }
    lemma_fitted_path_flows(m, drop);
}

/// Turning the inlet coupling of a run that carries the feed a quarter turn
/// always stops it.
pub proof fn lemma_turning_the_inlet_breaks_the_run(c: Seq<Coupling>)
    requires
        c.len() == PIPE_TILES,
        flows(c),
    ensures
        !flows(
            c.update(
                INLET_TILE as int,
                Coupling { piece: c[0].piece, quarters: ((c[0].quarters + 1) % 4) as u8 },
            ),
        ),
{
    lemma_turn_table();
    let turned = Coupling { piece: c[0].piece, quarters: ((c[0].quarters + 1) % 4) as u8 };
    let c2 = c.update(0, turned);
    assert(c2[0] == turned);
    let q = c[0].quarters % 4;
    if q == 0 {
    } else if q == 1 {
    } else if q == 2 {
    } else {
    }
}

/// No board is dealt already made up: the player always has a job to do.
pub proof fn law_no_board_is_dealt_made_up(seed: u64)
    ensures
        !flows(dealt_board(seed)),
{
    let board = scrambled_board(seed);
    if flows(board) {
        lemma_turning_the_inlet_breaks_the_run(board);
    }
}


// ---------------------------------------------------------------------------
// Playing it
// ---------------------------------------------------------------------------

/// Where the run is: still being turned, or made up and being held on screen
/// for `remaining` more microseconds before it is signed off.
#[derive(Debug, Clone, Copy, PartialEq, Eq, Structural)]
pub enum RunPhase {
    Turning,
    Locked { remaining: u64 },
}

/// One tile of the run as it is drawn.
#[derive(Debug, Clone, Copy, PartialEq, Eq, Structural)]
pub struct PipeTileVisual {
    pub piece: PipePiece,
    pub quarters: u8,
    pub flowing: bool,
}

/// The whole run as it is drawn.
#[derive(Debug, Clone, PartialEq, Eq)]
pub struct PipeRunVisualState {
    pub tiles: Vec<PipeTileVisual>,
    /// Which coupling the wrench is on.
    pub cursor: usize,
    pub drained: bool,
}

/// A feed-line coupling challenge in play.
pub struct PipeFlow {
    couplings: Vec<Coupling>,
    cursor: usize,
    phase: RunPhase,
    pending_cue: Option<MinigameAudioCue>,
    /// Walks the wrench back a coupling.
    prev_key: Key,
    /// Walks the wrench on a coupling.
    next_key: Key,
    /// Turns the coupling under the wrench a quarter turn.
    turn_key: Key,
}

/// How many of a run's tiles are wet.
pub open spec fn count_true(s: Seq<bool>) -> nat
    decreases s.len(),
{
    if s.len() == 0 {
        0
    } else {
        count_true(s.drop_last()) + if s.last() {
            1nat
        } else {
            0nat
        }
    }
}

/// What the challenge's status line reads for a board.
pub open spec fn pipe_status_text(couplings: Seq<Coupling>) -> Seq<char> {
    let (wet, drained) = trace_of(couplings);
    if drained {
        "Line made up. Feed running."@
    } else {
        let filled = count_true(wet);
        "Feed stalled at coupling "@ + decimal(if filled < 1 {
            1nat
        } else {
            filled
        }) + "/8."@
    }
}

/// Where the wrench ends up after the back and on keys: back first, then on,
/// wrapping round the run in either direction.
pub open spec fn wrench_after(cursor: int, back: bool, on: bool) -> int {
    let stepped_back = if back {
        (cursor + PIPE_TILES - 1) % (PIPE_TILES as int)
    } else {
        cursor
    };
    if on {
        (stepped_back + 1) % (PIPE_TILES as int)
    } else {
        stepped_back
    }
}

/// A coupling given one more quarter turn.
pub open spec fn turned_coupling(c: Coupling) -> Coupling {
    Coupling { piece: c.piece, quarters: ((c.quarters + 1) % 4) as u8 }
}

/// Where the wrench is after the on key has been pressed `presses` times.
pub open spec fn wrench_on_times(cursor: int, presses: nat) -> int
    decreases presses,
{
    if presses == 0 {
        cursor
    } else {
        wrench_after(wrench_on_times(cursor, (presses - 1) as nat), false, true)
    }
}

/// Walking the wrench on and then back leaves it where it was; pressing on
/// `k` times moves it `k` couplings round the run, so every coupling is
/// reached and a full round brings it back to where it started.
pub proof fn law_the_wrench_reaches_every_coupling(cursor: int, presses: nat)
    requires
        0 <= cursor < PIPE_TILES,
    ensures
        wrench_after(wrench_after(cursor, false, true), true, false) == cursor,
        wrench_after(wrench_after(cursor, true, false), false, true) == cursor,
        wrench_on_times(cursor, presses) == (cursor + presses) % (PIPE_TILES as int),
        wrench_on_times(cursor, PIPE_TILES as nat) == cursor,
    decreases presses,
{
    if presses > 0 {
        law_the_wrench_reaches_every_coupling(cursor, (presses - 1) as nat);
    }
    lemma_wrench_round(cursor, PIPE_TILES as nat);
}

proof fn lemma_wrench_round(cursor: int, presses: nat)
    requires
        0 <= cursor < PIPE_TILES,
    ensures
        wrench_on_times(cursor, presses) == (cursor + presses) % (PIPE_TILES as int),
    decreases presses,
{
    if presses > 0 {
        lemma_wrench_round(cursor, (presses - 1) as nat);
    }
}

impl PipeFlow {
    /// Eight couplings, and the wrench on one of them.
    pub closed spec fn well_formed(&self) -> bool {
        &&& self.couplings@.len() == PIPE_TILES
        &&& self.cursor < PIPE_TILES
    }

    /// The couplings, in reading order.
    pub closed spec fn board(&self) -> Seq<Coupling> {
        self.couplings@
    }

    /// Which coupling the wrench is on.
    pub closed spec fn wrench(&self) -> int {
        self.cursor as int
    }

    /// Whether the run is being turned or held.
    pub closed spec fn run_phase(&self) -> RunPhase {
        self.phase
    }

    /// The sound waiting to be played, if any.
    pub closed spec fn cue(&self) -> Option<MinigameAudioCue> {
        self.pending_cue
    }

    /// The keys the challenge reads: back, on, turn.
    pub closed spec fn controls(&self) -> (Key, Key, Key) {
        (self.prev_key, self.next_key, self.turn_key)
    }

    /// A run dealt fresh off a random seed, worked with `keys`' primary,
    /// secondary and action keys. Whatever the seed, the board is one that
    /// `deal` gives: never already carrying the feed, and always one that
    /// turning its couplings can make up.
    pub fn new(keys: MinigameKeys) -> (run: Self)
        ensures
            run.well_formed(),
            exists|seed: u64| run.board() == dealt_board(seed),
            can_be_made_up(run.board()),
            !flows(run.board()),
            run.wrench() == 0,
            run.run_phase() == RunPhase::Turning,
            run.cue() is None,
            run.controls() == (keys.primary, keys.secondary, keys.action),
    {
        let seed = random_seed();
        let run = Self::from_seed(seed, keys);
        assert(run.board() == dealt_board(seed));
        run
    }

    /// The run dealt off `seed`.
    pub fn from_seed(seed: u64, keys: MinigameKeys) -> (run: Self)
        ensures
            run.well_formed(),
            run.board() == dealt_board(seed),
            can_be_made_up(run.board()),
            !flows(run.board()),
            run.wrench() == 0,
            run.run_phase() == RunPhase::Turning,
            run.cue() is None,
            run.controls() == (keys.primary, keys.secondary, keys.action),
    {
        proof {
            law_no_board_is_dealt_made_up(seed);
            law_every_dealt_board_can_be_made_up(seed);
            assert(flows(made_up_board(seed)));
        }
        Self::over(deal(seed).board, keys)
    }

    /// A run sitting over an already-dealt board, with the wrench back at the
    /// inlet end.
    pub fn over(couplings: Vec<Coupling>, keys: MinigameKeys) -> (run: Self)
        requires
            couplings@.len() == PIPE_TILES,
        ensures
            run.well_formed(),
            run.board() == couplings@,
            run.wrench() == 0,
            run.run_phase() == RunPhase::Turning,
            run.cue() is None,
            run.controls() == (keys.primary, keys.secondary, keys.action),
    {
        PipeFlow {
            couplings,
            cursor: 0,
            phase: RunPhase::Turning,
            pending_cue: None,
            prev_key: keys.primary,
            next_key: keys.secondary,
            turn_key: keys.action,
        }
    }

    /// The couplings as they stand.
    pub fn couplings(&self) -> (c: &Vec<Coupling>)
        ensures
            c@ == self.board(),
    {
        &self.couplings
    }

    /// Which coupling the wrench is on.
    pub fn cursor(&self) -> (c: usize)
        ensures
            c == self.wrench(),
    {
        self.cursor
    }

    /// Whether the run is being turned or held.
    pub fn phase(&self) -> (p: RunPhase)
        ensures
            p == self.run_phase(),
    {
        self.phase
    }

    /// Follows the feed in from the inlet: which couplings it fills, and
    /// whether it makes the drain.
    pub fn trace(&self) -> (result: (Vec<bool>, bool))
        requires
            self.well_formed(),
        ensures
            (result.0@, result.1) == trace_of(self.board()),
    {
        trace_couplings(&self.couplings)
    }

    /// Whether the feed runs from the inlet to the drain.
    pub fn flowing(&self) -> (f: bool)
        requires
            self.well_formed(),
        ensures
            f == flows(self.board()),
    {
        self.trace().1
    }

    pub fn title(&self) -> (s: &'static str)
        ensures
            s@ == "Feed Line Coupling"@,
    {
        "Feed Line Coupling"
    }

    pub fn instructions(&self) -> (s: &'static str)
        ensures
            s@ == "Consult the repair manual."@,
    {
        "Consult the repair manual."
    }

    /// The status line: running, or how far the feed gets.
    pub fn status(&self) -> (s: String)
        requires
            self.well_formed(),
        ensures
            s@ == pipe_status_text(self.board()),
    {
        let (wet, drained) = self.trace();
        proof {
            lemma_walk_keeps_length(self.board(), 0, 8, Seq::new(8, |i: int| false), 8);
        }
        if drained {
            return String::from_str("Line made up. Feed running.");
        }
        let mut filled: u64 = 0;
        let mut i: usize = 0;
        while i < wet.len()
            invariant
                i <= wet@.len() == PIPE_TILES,
                filled == count_true(wet@.take(i as int)),
                filled <= i,
            decreases wet@.len() - i,
        {
            proof {
                assert(wet@.take(i + 1).drop_last() =~= wet@.take(i as int));
            }
            if wet[i] {
                filled = filled + 1;
            }
            i = i + 1;
        }
        proof {
            assert(wet@.take(i as int) =~= wet@);
        }
        let shown = if filled < 1 {
            1
        } else {
            filled
        };
        let mut s = String::from_str("Feed stalled at coupling ");
        push_decimal(&mut s, shown);
        push_str(&mut s, "/8.");
        s
    }

    /// What `take_audio_cues` hands over and leaves behind.
    pub open spec fn cues_taken(before: Self, after: Self, cues: Seq<MinigameAudioCue>) -> bool {
        &&& cues == match before.cue() {
            Some(c) => seq![c],
            None => Seq::<MinigameAudioCue>::empty(),
        }
        &&& after.cue() is None
        &&& after.board() == before.board()
        &&& after.wrench() == before.wrench()
        &&& after.run_phase() == before.run_phase()
        &&& after.controls() == before.controls()
    }

    /// Hands over the sound the last frame raised, if any, and forgets it.
    pub fn take_audio_cues(&mut self) -> (cues: Vec<MinigameAudioCue>)
        ensures
            old(self).well_formed() ==> final(self).well_formed(),
            Self::cues_taken(*old(self), *final(self), cues@),
    {
        let mut cues: Vec<MinigameAudioCue> = Vec::new();
        match self.pending_cue {
            Some(c) => {
                cues.push(c);
            },
            None => {},
        }
        self.pending_cue = None;
        cues
    }

    /// The run as it is drawn: every coupling, which are wet, where the
    /// wrench is, and whether the drain is running.
    pub fn visual_state(&self) -> (v: PipeRunVisualState)
        requires
            self.well_formed(),
        ensures
            v.tiles@.len() == PIPE_TILES,
            v.cursor == self.wrench(),
            v.drained == trace_of(self.board()).1,
            forall|i: int|
                0 <= i < PIPE_TILES ==> #[trigger] v.tiles@[i] == (PipeTileVisual {
                    piece: self.board()[i].piece,
                    quarters: self.board()[i].quarters,
                    flowing: trace_of(self.board()).0[i],
                }),
    {
        let (wet, drained) = self.trace();
        proof {
            lemma_walk_keeps_length(self.board(), 0, 8, Seq::new(8, |i: int| false), 8);
        }
        let mut tiles: Vec<PipeTileVisual> = Vec::new();
        let mut i: usize = 0;
        while i < PIPE_TILES
            invariant
                i <= PIPE_TILES,
                self.couplings@.len() == PIPE_TILES,
                wet@.len() == PIPE_TILES,
                wet@ == trace_of(self.couplings@).0,
                tiles@.len() == i,
                forall|j: int|
                    0 <= j < i ==> #[trigger] tiles@[j] == (PipeTileVisual {
                        piece: self.couplings@[j].piece,
                        quarters: self.couplings@[j].quarters,
                        flowing: wet@[j],
                    }),
            decreases PIPE_TILES - i,
        {
            let c = self.couplings[i];
            tiles.push(PipeTileVisual { piece: c.piece, quarters: c.quarters, flowing: wet[i] });
            i = i + 1;
        }
        PipeRunVisualState { tiles, cursor: self.cursor, drained }
    }

    /// What one frame of `tick` does, from `before` to `after`.
    pub open spec fn ticked(before: Self, after: Self, keys: KeyInput, delta_micros: u64, outcome: Option<MinigameOutcome>) -> bool {
        &&& after.controls() == before.controls()
        &&& match before.run_phase() {
            RunPhase::Turning => {
                let cursor = wrench_after(
                    before.wrench(),
                    keys.just_pressed@.contains(before.controls().0),
                    keys.just_pressed@.contains(before.controls().1),
                );
                &&& outcome is None
                &&& after.wrench() == cursor
                &&& if keys.just_pressed@.contains(before.controls().2) {
                    let board = before.board().update(
                        cursor,
                        turned_coupling(before.board()[cursor]),
                    );
                    &&& after.board() == board
                    &&& if flows(board) {
                        &&& after.run_phase() == RunPhase::Locked {
                            remaining: LOCKED_HOLD_MICROS,
                        }
                        &&& after.cue() == Some(MinigameAudioCue::PipesMadeUp)
                    } else {
                        &&& after.run_phase() == RunPhase::Turning
                        &&& after.cue() == before.cue()
                    }
                } else {
                    &&& after.board() == before.board()
                    &&& after.run_phase() == RunPhase::Turning
                    &&& after.cue() == before.cue()
                }
            },
            RunPhase::Locked { remaining } => {
                &&& after.board() == before.board()
                &&& after.wrench() == before.wrench()
                &&& after.cue() == before.cue()
                &&& if delta_micros >= remaining {
                    &&& outcome == Some(MinigameOutcome::Success)
                    &&& after.run_phase() == before.run_phase()
                } else {
                    &&& outcome is None
                    &&& after.run_phase() == RunPhase::Locked {
                        remaining: (remaining - delta_micros) as u64,
                    }
                }
            }
        }
    }

    /// One frame of play. While the run is being turned, the back and on
    /// keys walk the wrench round the couplings and the turn key gives the
    /// one under it a quarter turn; the turn that makes the run up raises a
    /// cue and holds the run. A held run is signed off as a success once it
    /// has been held for its full time.
    pub fn tick(&mut self, keys: &KeyInput, delta_micros: u64) -> (outcome: Option<MinigameOutcome>)
        requires
            old(self).well_formed(),
        ensures
            final(self).well_formed(),
            Self::ticked(*old(self), *final(self), *keys, delta_micros, outcome),
    {
        match self.phase {
            RunPhase::Turning => {
                if keys.just_pressed(self.prev_key) {
                    self.cursor = (self.cursor + PIPE_TILES - 1) % PIPE_TILES;
                }
                if keys.just_pressed(self.next_key) {
                    self.cursor = (self.cursor + 1) % PIPE_TILES;
                }
                if keys.just_pressed(self.turn_key) {
                    let turned = self.couplings[self.cursor].turned();
                    let cursor = self.cursor;
                    self.couplings.set(cursor, turned);
                    if self.flowing() {
                        self.pending_cue = Some(MinigameAudioCue::PipesMadeUp);
                        self.phase = RunPhase::Locked { remaining: LOCKED_HOLD_MICROS };
                    }
                }
                None
            },
            RunPhase::Locked { remaining } => {
                if delta_micros >= remaining {
                    return Some(MinigameOutcome::Success);
                }
                self.phase = RunPhase::Locked { remaining: remaining - delta_micros };
                None
            },
        }
    }
}

/// The faces `faces` turns to, kept below sixteen.
proof fn lemma_turned_below_sixteen(faces: int, quarters: nat)
    requires
        0 <= faces,
    ensures
        0 <= turned_faces(faces, quarters) < 16,
    decreases quarters,
{
    if quarters > 0 {
        lemma_turned_below_sixteen(faces, (quarters - 1) as nat);
    }
}

/// A quarter turn of any set of faces below sixteen: four of them bring it
/// back, and it opens onto as many faces as before.
#[verifier::spinoff_prover]
#[verifier::rlimit(40)]
proof fn lemma_quarter_turn(x: int)
    requires
        0 <= x < 16,
    ensures
        rot1(rot1(rot1(rot1(x)))) == x,
        face_count(rot1(x)) == face_count(x),
        0 <= rot1(x) < 16,
{
    if x == 0 {
        assert(rot1(0) == 0);
        assert(rot1(0) == 0);
        assert(rot1(0) == 0);
        assert(rot1(0) == 0);
        assert(face_count(0) == 0);
        assert(face_count(0) == 0);
    }
    if x == 1 {
        assert(rot1(1) == 2);
        assert(rot1(2) == 4);
        assert(rot1(4) == 8);
        assert(rot1(8) == 1);
        assert(face_count(1) == 1);
        assert(face_count(2) == 1);
    }
    if x == 2 {
        assert(rot1(2) == 4);
        assert(rot1(4) == 8);
        assert(rot1(8) == 1);
        assert(rot1(1) == 2);
        assert(face_count(2) == 1);
        assert(face_count(4) == 1);
    }
    if x == 3 {
        assert(rot1(3) == 6);
        assert(rot1(6) == 12);
        assert(rot1(12) == 9);
        assert(rot1(9) == 3);
        assert(face_count(3) == 2);
        assert(face_count(6) == 2);
    }
    if x == 4 {
        assert(rot1(4) == 8);
        assert(rot1(8) == 1);
        assert(rot1(1) == 2);
        assert(rot1(2) == 4);
        assert(face_count(4) == 1);
        assert(face_count(8) == 1);
    }
    if x == 5 {
        assert(rot1(5) == 10);
        assert(rot1(10) == 5);
        assert(rot1(5) == 10);
        assert(rot1(10) == 5);
        assert(face_count(5) == 2);
        assert(face_count(10) == 2);
    }
    if x == 6 {
        assert(rot1(6) == 12);
        assert(rot1(12) == 9);
        assert(rot1(9) == 3);
        assert(rot1(3) == 6);
        assert(face_count(6) == 2);
        assert(face_count(12) == 2);
    }
    if x == 7 {
        assert(rot1(7) == 14);
        assert(rot1(14) == 13);
        assert(rot1(13) == 11);
        assert(rot1(11) == 7);
        assert(face_count(7) == 3);
        assert(face_count(14) == 3);
    }
    if x == 8 {
        assert(rot1(8) == 1);
        assert(rot1(1) == 2);
        assert(rot1(2) == 4);
        assert(rot1(4) == 8);
        assert(face_count(8) == 1);
        assert(face_count(1) == 1);
    }
    if x == 9 {
        assert(rot1(9) == 3);
        assert(rot1(3) == 6);
        assert(rot1(6) == 12);
        assert(rot1(12) == 9);
        assert(face_count(9) == 2);
        assert(face_count(3) == 2);
    }
    if x == 10 {
        assert(rot1(10) == 5);
        assert(rot1(5) == 10);
        assert(rot1(10) == 5);
        assert(rot1(5) == 10);
        assert(face_count(10) == 2);
        assert(face_count(5) == 2);
    }
    if x == 11 {
        assert(rot1(11) == 7);
        assert(rot1(7) == 14);
        assert(rot1(14) == 13);
        assert(rot1(13) == 11);
        assert(face_count(11) == 3);
        assert(face_count(7) == 3);
    }
    if x == 12 {
        assert(rot1(12) == 9);
        assert(rot1(9) == 3);
        assert(rot1(3) == 6);
        assert(rot1(6) == 12);
        assert(face_count(12) == 2);
        assert(face_count(9) == 2);
    }
    if x == 13 {
        assert(rot1(13) == 11);
        assert(rot1(11) == 7);
        assert(rot1(7) == 14);
        assert(rot1(14) == 13);
        assert(face_count(13) == 3);
        assert(face_count(11) == 3);
    }
    if x == 14 {
        assert(rot1(14) == 13);
        assert(rot1(13) == 11);
        assert(rot1(11) == 7);
        assert(rot1(7) == 14);
        assert(face_count(14) == 3);
        assert(face_count(13) == 3);
    }
    if x == 15 {
        assert(rot1(15) == 15);
        assert(rot1(15) == 15);
        assert(rot1(15) == 15);
        assert(rot1(15) == 15);
        assert(face_count(15) == 4);
        assert(face_count(15) == 4);
    }
}

/// Turning `b` quarters after `a` is turning `a + b`.
proof fn lemma_turns_compose(faces: int, a: nat, b: nat)
    requires
        0 <= faces,
    ensures
        turned_faces(turned_faces(faces, a), b) == turned_faces(faces, a + b),
    decreases b,
{
    lemma_turned_below_sixteen(faces, a);
    if b > 0 {
        lemma_turns_compose(faces, a, (b - 1) as nat);
    }
}

/// A full turn leaves a set of faces as it was.
#[verifier::spinoff_prover]
#[verifier::rlimit(40)]
proof fn lemma_full_turn(faces: int, a: nat)
    requires
        0 <= faces,
    ensures
        turned_faces(faces, a + 4) == turned_faces(faces, a),
{
    lemma_turns_compose(faces, a, 4);
    let g = turned_faces(faces, a);
    lemma_turned_below_sixteen(faces, a);
    lemma_quarter_turn(g);
    assert(g % 16 == g);
    assert(turned_faces(g, 0) == g);
    assert(turned_faces(g, 1) == rot1(g));
    assert(turned_faces(g, 2) == rot1(rot1(g)));
    assert(turned_faces(g, 3) == rot1(rot1(rot1(g))));
    assert(turned_faces(g, 4) == rot1(rot1(rot1(rot1(g)))));
}

/// Only the quarters past whole turns count.
proof fn lemma_turns_past_whole_turns(faces: int, a: nat)
    requires
        0 <= faces,
    ensures
        turned_faces(faces, a) == turned_faces(faces, a % 4),
    decreases a,
{
    if a >= 4 {
        let less = (a - 4) as nat;
        lemma_turns_past_whole_turns(faces, less);
        lemma_full_turn(faces, less);
        assert(less + 4 == a);
        assert(less % 4 == a % 4);
    }
}

/// No turn changes how many faces a set opens onto.
proof fn lemma_turns_keep_the_count(faces: int, a: nat)
    requires
        0 <= faces,
    ensures
        face_count(turned_faces(faces, a)) == face_count(faces % 16),
    decreases a,
{
    if a > 0 {
        lemma_turns_keep_the_count(faces, (a - 1) as nat);
        lemma_turned_below_sixteen(faces, (a - 1) as nat);
        lemma_quarter_turn(turned_faces(faces, (a - 1) as nat));
    }
}

/// Turning is counted in quarters round the circle: two turns in a row are
/// one turn by their sum, a full turn leaves a set of faces as it was (so
/// only the quarters past whole turns count), and no turn changes how many
/// faces a piece opens onto.
pub proof fn law_turns_add_up_round_the_circle(faces: int, a: nat, b: nat)
    requires
        0 <= faces,
    ensures
        turned_faces(turned_faces(faces, a), b) == turned_faces(faces, a + b),
        turned_faces(faces, a + 4) == turned_faces(faces, a),
        turned_faces(faces, a) == turned_faces(faces, a % 4),
        face_count(turned_faces(faces, a)) == face_count(faces % 16),
{
    lemma_turns_compose(faces, a, b);
    lemma_full_turn(faces, a);
    lemma_turns_past_whole_turns(faces, a);
    lemma_turns_keep_the_count(faces, a);
}

/// A run made up by a turn is held before it is signed off: the turn that
/// makes it up finishes nothing, flows the feed, locks the run for
/// `LOCKED_HOLD_MICROS` and raises the made-up sound; a frame short of the
/// hold leaves it locked with that much less to wait; and the next frame
/// signs it off if the two frames together see the hold out.
pub proof fn law_a_made_up_run_is_held_before_it_is_signed_off(
    first: PipeFlow,
    second: PipeFlow,
    third: PipeFlow,
    fourth: PipeFlow,
    turn: KeyInput,
    later: KeyInput,
    last: KeyInput,
    d1: u64,
    d2: u64,
    d3: u64,
    o1: Option<MinigameOutcome>,
    o2: Option<MinigameOutcome>,
    o3: Option<MinigameOutcome>,
)
    requires
        first.run_phase() == RunPhase::Turning,
        turn.just_pressed@.contains(first.controls().2),
        !turn.just_pressed@.contains(first.controls().0),
        !turn.just_pressed@.contains(first.controls().1),
        flows(first.board().update(first.wrench(), turned_coupling(first.board()[first.wrench()]))),
        PipeFlow::ticked(first, second, turn, d1, o1),
        PipeFlow::ticked(second, third, later, d2, o2),
        PipeFlow::ticked(third, fourth, last, d3, o3),
        d2 < LOCKED_HOLD_MICROS,
    ensures
        o1 is None,
        flows(second.board()),
        second.run_phase() == (RunPhase::Locked { remaining: LOCKED_HOLD_MICROS }),
        second.cue() == Some(MinigameAudioCue::PipesMadeUp),
        o2 is None,
        third.run_phase() == (RunPhase::Locked { remaining: (LOCKED_HOLD_MICROS - d2) as u64 }),
        o3 == if d2 + d3 >= LOCKED_HOLD_MICROS {
            Some(MinigameOutcome::Success)
        } else {
            None
        },
{
}

/// Following the feed never changes how many tiles there are.
pub proof fn lemma_walk_keeps_length(
    couplings: Seq<Coupling>,
    index: int,
    entering: int,
    wet: Seq<bool>,
    fuel: nat,
)
    requires
        couplings.len() == PIPE_TILES,
        wet.len() == PIPE_TILES,
        0 <= index < PIPE_TILES,
    ensures
        walk(couplings, index, entering, wet, fuel).0.len() == PIPE_TILES,
    decreases fuel,
{
    if fuel > 0 {
        let openings = coupling_faces(couplings[index]);
        if has_face(openings, entering) {
            let now_wet = wet.update(index, true);
            let leaving = openings - entering;
            match neighbour_tile(index, leaving) {
                None => {},
                Some(next) => {
                    if !now_wet[next] {
                        lemma_walk_keeps_length(
                            couplings,
                            next,
                            facing_face(leaving),
                            now_wet,
                            (fuel - 1) as nat,
                        );
                    }
                },
            }
        }
    }
}

} // verus!
