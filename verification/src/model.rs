//! Data model: the game configuration, the player state, and the error kinds
//! the engine can surface.

use vstd::prelude::*;

verus! {

/// Attribute selector used by `MajorDesc::Delta` effects.
///
/// The textual names of the variants are fixed by the configuration schema:
/// `"hp" "atk" "def" "mdef" "exp" "lv" "salt" "big_salt"`.
#[derive(Clone, Copy, PartialEq, Eq, Structural, Debug)]
pub enum AttrType {
    Hp,
    Atk,
    Def,
    Mdef,
    Exp,
    Lv,
    Salt,
    BigSalt,
}

impl AttrType {
    /// The fixed textual name of the attribute, as a sequence of characters.
    pub open spec fn spec_name(&self) -> Seq<char> {
        match self {
            AttrType::Hp => "hp"@,
            AttrType::Atk => "atk"@,
            AttrType::Def => "def"@,
            AttrType::Mdef => "mdef"@,
            AttrType::Exp => "exp"@,
            AttrType::Lv => "lv"@,
            AttrType::Salt => "salt"@,
            AttrType::BigSalt => "big_salt"@,
        }
    }

    /// The fixed textual name of the attribute.
    pub fn name(&self) -> (r: &'static str)
        ensures
            r@ == self.spec_name(),
    {
        match self {
            AttrType::Hp => "hp",
            AttrType::Atk => "atk",
            AttrType::Def => "def",
            AttrType::Mdef => "mdef",
            AttrType::Exp => "exp",
            AttrType::Lv => "lv",
            AttrType::Salt => "salt",
            AttrType::BigSalt => "big_salt",
        }
    }

    /// Parse one of the fixed textual names; the inverse of `name`.
    pub fn from_name(s: &str) -> (r: Option<AttrType>)
        ensures
            r == spec_attr_of_name(s@),
    {
        let t = s.to_owned();
        if t == "hp".to_owned() {
            Some(AttrType::Hp)
        } else if t == "atk".to_owned() {
            Some(AttrType::Atk)
        } else if t == "def".to_owned() {
            Some(AttrType::Def)
        } else if t == "mdef".to_owned() {
            Some(AttrType::Mdef)
        } else if t == "exp".to_owned() {
            Some(AttrType::Exp)
        } else if t == "lv".to_owned() {
            Some(AttrType::Lv)
        } else if t == "salt".to_owned() {
            Some(AttrType::Salt)
        } else if t == "big_salt".to_owned() {
            Some(AttrType::BigSalt)
        } else {
            None
        }
    }
}

/// The attribute carrying the given fixed textual name; `None` for every
/// other string.
pub open spec fn spec_attr_of_name(s: Seq<char>) -> Option<AttrType> {
    if s == "hp"@ {
        Some(AttrType::Hp)
    } else if s == "atk"@ {
        Some(AttrType::Atk)
    } else if s == "def"@ {
        Some(AttrType::Def)
    } else if s == "mdef"@ {
        Some(AttrType::Mdef)
    } else if s == "exp"@ {
        Some(AttrType::Exp)
    } else if s == "lv"@ {
        Some(AttrType::Lv)
    } else if s == "salt"@ {
        Some(AttrType::Salt)
    } else if s == "big_salt"@ {
        Some(AttrType::BigSalt)
    } else {
        None
    }
}

/// Sequences of different lengths differ.
proof fn lemma_seq_len_ne(s1: Seq<char>, s2: Seq<char>)
    requires
        s1.len() != s2.len(),
    ensures
        s1 != s2,
{
}

/// Sequences differing at some index differ.
proof fn lemma_seq_index_ne(s1: Seq<char>, s2: Seq<char>, i: int)
    requires
        0 <= i < s1.len(),
        i < s2.len(),
        s1[i] != s2[i],
    ensures
        s1 != s2,
{
}

/// Each fixed name parses back to its own attribute: `from_name` inverts
/// `name`.
pub proof fn lemma_attr_name_round_trip(a: AttrType)
    ensures
        spec_attr_of_name(a.spec_name()) == Some(a),
{
    reveal_strlit("hp");
    reveal_strlit("atk");
    reveal_strlit("def");
    reveal_strlit("mdef");
    reveal_strlit("exp");
    reveal_strlit("lv");
    reveal_strlit("salt");
    reveal_strlit("big_salt");
    match a {
        AttrType::Hp => {},
        AttrType::Atk => {
            lemma_seq_len_ne("atk"@, "hp"@);
        },
        AttrType::Def => {
            lemma_seq_len_ne("def"@, "hp"@);
            lemma_seq_index_ne("def"@, "atk"@, 0);
        },
        AttrType::Mdef => {
            lemma_seq_len_ne("mdef"@, "hp"@);
            lemma_seq_len_ne("mdef"@, "atk"@);
            lemma_seq_len_ne("mdef"@, "def"@);
        },
        AttrType::Exp => {
            lemma_seq_len_ne("exp"@, "hp"@);
            lemma_seq_index_ne("exp"@, "atk"@, 0);
            lemma_seq_index_ne("exp"@, "def"@, 0);
            lemma_seq_len_ne("exp"@, "mdef"@);
        },
        AttrType::Lv => {
            lemma_seq_index_ne("lv"@, "hp"@, 0);
            lemma_seq_len_ne("lv"@, "atk"@);
            lemma_seq_len_ne("lv"@, "def"@);
            lemma_seq_len_ne("lv"@, "mdef"@);
            lemma_seq_len_ne("lv"@, "exp"@);
        },
        AttrType::Salt => {
            lemma_seq_len_ne("salt"@, "hp"@);
            lemma_seq_len_ne("salt"@, "atk"@);
            lemma_seq_len_ne("salt"@, "def"@);
            lemma_seq_index_ne("salt"@, "mdef"@, 0);
            lemma_seq_len_ne("salt"@, "exp"@);
            lemma_seq_len_ne("salt"@, "lv"@);
        },
        AttrType::BigSalt => {
            lemma_seq_len_ne("big_salt"@, "hp"@);
            lemma_seq_len_ne("big_salt"@, "atk"@);
            lemma_seq_len_ne("big_salt"@, "def"@);
            lemma_seq_len_ne("big_salt"@, "mdef"@);
            lemma_seq_len_ne("big_salt"@, "exp"@);
            lemma_seq_len_ne("big_salt"@, "lv"@);
            lemma_seq_len_ne("big_salt"@, "salt"@);
        },
    }
}

/// Effect of entering a major node: either a battle against an enemy from the
/// enemy table, or an ordered list of attribute deltas.
#[derive(Clone, Debug)]
pub enum MajorDesc {
    Enemy(u32),
    Delta(Vec<(AttrType, i32)>),
}

/// Passive reward bundle granted by a minor node.
#[derive(Clone, Copy, PartialEq, Eq, Structural, Debug)]
pub struct MinorDesc {
    pub atk: i32,
    pub def: i32,
    pub hp: i32,
    pub mdef: i32,
}

/// An entry of the enemy table.
#[derive(Clone, Copy, PartialEq, Eq, Structural, Debug)]
pub struct Enemy {
    pub atk: i32,
    pub def: i32,
    pub hp: i32,
    pub attimes: i32,
    pub exp: i32,
    pub magic: bool,
    pub solid: bool,
    pub speedy: bool,
    pub nobomb: bool,
}

/// The eight player attributes, mutated as the route is consumed.
#[derive(Clone, Copy, PartialEq, Eq, Structural, Debug)]
pub struct PlayerState {
    pub hp: i32,
    pub atk: i32,
    pub def: i32,
    pub mdef: i32,
    pub exp: i32,
    pub lv: u32,
    pub salt: i32,
    pub big_salt: i32,
}

impl PlayerState {
    /// Field-wise copy of the initial statistics.
    pub fn from_init_stats(init: &PlayerState) -> (r: PlayerState)
        ensures
            r == *init,
    {
        PlayerState {
            hp: init.hp,
            atk: init.atk,
            def: init.def,
            mdef: init.mdef,
            exp: init.exp,
            lv: init.lv,
            salt: init.salt,
            big_salt: init.big_salt,
        }
    }
}

/// One row of the level-up table, indexed by the current level.
#[derive(Clone, Copy, PartialEq, Eq, Structural, Debug)]
pub struct LevelUp {
    pub minor: u32,
    pub need: i32,
    pub clear: bool,
}

/// Immutable game configuration; fixed for the whole simulation.
#[derive(Clone, Debug)]
pub struct GameConfig {
    pub major_adj: Vec<Vec<u32>>,
    pub major_minor_adj: Vec<Vec<u32>>,
    pub major_desc: Vec<MajorDesc>,
    pub minor_desc: Vec<MinorDesc>,
    pub enemy_data: Vec<Enemy>,
    pub init_stat: PlayerState,
    pub levelup_desc: Vec<LevelUp>,
}

impl GameConfig {
    /// Structural well-formedness: the major tables are non-empty and of equal
    /// length, the node count fits the arithmetic the engine performs, and
    /// every enemy referenced by a major node exists in the enemy table.
    pub open spec fn wf(&self) -> bool {
        &&& self.major_adj@.len() > 0
        &&& self.major_adj@.len() == self.major_desc@.len()
        &&& self.major_adj@.len() <= i32::MAX as int
        &&& self.levelup_desc@.len() <= u32::MAX as int
        &&& forall|i: int|
            0 <= i < self.major_desc@.len() ==> (#[trigger] self.major_desc@[i] matches
            MajorDesc::Enemy(eid) ==> (eid as int) < self.enemy_data@.len())
    }

    /// Decides well-formedness; true exactly when `wf` holds.
    pub fn is_well_formed(&self) -> (b: bool)
        ensures
            b == self.wf(),
    {
        if self.major_adj.len() == 0 {
            return false;
        }
        if self.major_adj.len() != self.major_desc.len() {
            return false;
        }
        if self.major_adj.len() > i32::MAX as usize {
            return false;
        }
        if self.levelup_desc.len() > u32::MAX as usize {
            return false;
        }
        let n = self.major_desc.len();
        let mut i: usize = 0;
        while i < n
            invariant
                n == self.major_desc@.len(),
                i <= n,
                forall|j: int|
                    0 <= j < i ==> (#[trigger] self.major_desc@[j] matches MajorDesc::Enemy(eid)
                        ==> (eid as int) < self.enemy_data@.len()),
            decreases n - i,
        {
            match &self.major_desc[i] {
                MajorDesc::Enemy(eid) => {
                    if (*eid as usize) >= self.enemy_data.len() {
                        return false;
                    }
                },
                MajorDesc::Delta(_) => {},
            }
            i = i + 1;
        }
        true
    }

    /// Checked validation: `Ok` exactly on well-formed configurations, and
    /// `InvalidConfig` otherwise.
    pub fn validate(&self) -> (r: Result<(), GameError>)
        ensures
            r is Ok <==> self.wf(),
            r is Err ==> r->Err_0 == GameError::InvalidConfig,
    {
        if self.is_well_formed() {
            Ok(())
        } else {
            Err(GameError::InvalidConfig)
        }
    }
}

/// The terminal error kinds surfaced by the engine and its boundary.
#[derive(Clone, Copy, PartialEq, Eq, Structural, Debug)]
pub enum GameError {
    /// Route byte length is not a multiple of 4.
    MalformedRoute,
    /// Zero-length route.
    EmptyRoute,
    /// Last route element is not node 1.
    MissingTerminator,
    /// A major node was revisited.
    AlreadyVisited,
    /// A step had no completed prerequisite.
    Unreachable,
    /// Checked arithmetic in resource conversion failed.
    Overflow,
    /// Final hp is not positive.
    PlayerDead,
    /// Final salt or big_salt is nonzero.
    OutstandingDebt,
    /// Structural validation of a configuration failed.
    InvalidConfig,
    /// An input buffer exceeded its cap at the host boundary.
    InputTooLarge,
}

/// The record emitted on the public output channel of a proof.
#[derive(Clone, Debug)]
pub struct Output {
    pub config_hash: [u8; 32],
    pub user_cred_hash: [u8; 32],
    pub scores: Vec<i64>,
}

} // verus!
