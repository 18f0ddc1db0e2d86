//! Team rosters built from fixed formation templates.
use vstd::prelude::*;

verus! {

/// The position a player lines up at.
#[derive(Clone, Copy, Debug, PartialEq, Eq, Structural)]
pub enum FBPosition {
    QB,
    HB,
    FB,
    WR,
    TE,
    LB,
    DE,
    DT,
    NT,
    FS,
    SS,
    CB,
}

/// One player: jersey number, position and team tag.
#[derive(Clone, Copy, Debug, PartialEq, Eq, Structural)]
pub struct FBPlayer {
    pub number: u8,
    pub position: FBPosition,
    pub team: u8,
}

/// Jersey number for a template slot with base number `base`, on the team tagged `team`:
/// `base + team`, wrapping around at 256.
pub open spec fn jersey(base: u8, team: u8) -> u8 {
    if base + team > u8::MAX {
        (base + team - 256) as u8
    } else {
        (base + team) as u8
    }
}

/// The player that a template slot `(base, position)` yields for the team tagged `team`.
pub open spec fn slot_player(base: u8, position: FBPosition, team: u8) -> FBPlayer {
    FBPlayer { number: jersey(base, team), position, team }
}

/// Base jersey numbers of the standard offensive grouping, in template order.
pub const QB_BASE: u8 = 12;
pub const HB_BASE: u8 = 20;
pub const FB_BASE: u8 = 33;
pub const TE_BASE: u8 = 88;
pub const WR1_BASE: u8 = 84;
pub const WR2_BASE: u8 = 81;
pub const C_BASE: u8 = 68;
pub const LG_BASE: u8 = 77;
pub const RG_BASE: u8 = 65;
pub const LT_BASE: u8 = 69;
pub const RT_BASE: u8 = 71;

/// Base jersey numbers of the standard 3-4 defensive grouping, in template order.
pub const NT_BASE: u8 = 91;
pub const DE1_BASE: u8 = 94;
pub const DE2_BASE: u8 = 96;
pub const ILB1_BASE: u8 = 56;
pub const ILB2_BASE: u8 = 60;
pub const OLB1_BASE: u8 = 63;
pub const OLB2_BASE: u8 = 52;
pub const CB1_BASE: u8 = 20;
pub const CB2_BASE: u8 = 26;
pub const FS_BASE: u8 = 30;
pub const SS_BASE: u8 = 36;

/// Size of one formation grouping.
pub const GROUP_SIZE: usize = 11;

/// The standard offensive grouping for `team`: quarterback, halfback, fullback, tight end,
/// two wide receivers, then the five linemen (center, guards, tackles), which carry the
/// halfback tag since the position set has no lineman tag.
pub open spec fn offense(team: u8) -> Seq<FBPlayer> {
    seq![
        slot_player(QB_BASE, FBPosition::QB, team),
        slot_player(HB_BASE, FBPosition::HB, team),
        slot_player(FB_BASE, FBPosition::FB, team),
        slot_player(TE_BASE, FBPosition::TE, team),
        slot_player(WR1_BASE, FBPosition::WR, team),
        slot_player(WR2_BASE, FBPosition::WR, team),
        slot_player(C_BASE, FBPosition::HB, team),
        slot_player(LG_BASE, FBPosition::HB, team),
        slot_player(RG_BASE, FBPosition::HB, team),
        slot_player(LT_BASE, FBPosition::HB, team),
        slot_player(RT_BASE, FBPosition::HB, team),
    ]
}

/// The standard 3-4 defensive grouping for `team`: nose tackle, two defensive ends, four
/// linebackers (two inside, two outside), two cornerbacks, free safety, strong safety.
pub open spec fn defense(team: u8) -> Seq<FBPlayer> {
    seq![
        slot_player(NT_BASE, FBPosition::NT, team),
        slot_player(DE1_BASE, FBPosition::DE, team),
        slot_player(DE2_BASE, FBPosition::DE, team),
        slot_player(ILB1_BASE, FBPosition::LB, team),
        slot_player(ILB2_BASE, FBPosition::LB, team),
        slot_player(OLB1_BASE, FBPosition::LB, team),
        slot_player(OLB2_BASE, FBPosition::LB, team),
        slot_player(CB1_BASE, FBPosition::CB, team),
        slot_player(CB2_BASE, FBPosition::CB, team),
        slot_player(FS_BASE, FBPosition::FS, team),
        slot_player(SS_BASE, FBPosition::SS, team),
    ]
}

/// The fixed demonstration roster: the offense tagged 0 followed by the defense tagged 1.
pub open spec fn standard_team() -> Seq<FBPlayer> {
    offense(0) + defense(1)
}

/// No two players of `s` share a jersey number.
pub open spec fn numbers_unique(s: Seq<FBPlayer>) -> bool {
    forall|i: int, j: int|
        0 <= i < s.len() && 0 <= j < s.len() && i != j ==> #[trigger] s[i].number
            != #[trigger] s[j].number
}

fn make_player(base: u8, position: FBPosition, team: u8) -> (p: FBPlayer)
    ensures
        p == slot_player(base, position, team),
{
    FBPlayer { number: base.wrapping_add(team), position, team }
}

/// Game state: the roster that is laid out when the state starts.
pub struct FBState {
    players: Vec<FBPlayer>,
}

impl View for FBState {
    type V = Seq<FBPlayer>;

    /// The roster, in order.
    closed spec fn view(&self) -> Seq<FBPlayer> {
        self.players@
    }
}

impl FBState {
    /// Builds the standard offensive grouping for the team tagged `team`.
    pub fn build_std_21_offense(team: u8) -> (r: Vec<FBPlayer>)
        ensures
            r@ == offense(team),
            r@.len() == GROUP_SIZE,
            numbers_unique(r@),
    {
        let mut r: Vec<FBPlayer> = Vec::new();
        r.push(make_player(QB_BASE, FBPosition::QB, team));
        r.push(make_player(HB_BASE, FBPosition::HB, team));
        r.push(make_player(FB_BASE, FBPosition::FB, team));
        r.push(make_player(TE_BASE, FBPosition::TE, team));
        r.push(make_player(WR1_BASE, FBPosition::WR, team));
        r.push(make_player(WR2_BASE, FBPosition::WR, team));
        r.push(make_player(C_BASE, FBPosition::HB, team));
        r.push(make_player(LG_BASE, FBPosition::HB, team));
        r.push(make_player(RG_BASE, FBPosition::HB, team));
        r.push(make_player(LT_BASE, FBPosition::HB, team));
        r.push(make_player(RT_BASE, FBPosition::HB, team));
        proof {
            assert(r@ =~= offense(team));
            lemma_offense_numbers_unique(team);
        }
        r
    }

    /// Builds the standard 3-4 defensive grouping for the team tagged `team`.
    pub fn build_std_34_defense(team: u8) -> (r: Vec<FBPlayer>)
        ensures
            r@ == defense(team),
            r@.len() == GROUP_SIZE,
            numbers_unique(r@),
    {
        let mut r: Vec<FBPlayer> = Vec::new();
        r.push(make_player(NT_BASE, FBPosition::NT, team));
        r.push(make_player(DE1_BASE, FBPosition::DE, team));
        r.push(make_player(DE2_BASE, FBPosition::DE, team));
        r.push(make_player(ILB1_BASE, FBPosition::LB, team));
        r.push(make_player(ILB2_BASE, FBPosition::LB, team));
        r.push(make_player(OLB1_BASE, FBPosition::LB, team));
        r.push(make_player(OLB2_BASE, FBPosition::LB, team));
        r.push(make_player(CB1_BASE, FBPosition::CB, team));
        r.push(make_player(CB2_BASE, FBPosition::CB, team));
        r.push(make_player(FS_BASE, FBPosition::FS, team));
        r.push(make_player(SS_BASE, FBPosition::SS, team));
        proof {
            assert(r@ =~= defense(team));
            lemma_defense_numbers_unique(team);
        }
        r
    }

    /// Builds the fixed demonstration roster: the offense tagged 0, then the defense tagged 1.
    pub fn build_std_team() -> (r: Vec<FBPlayer>)
        ensures
            r@ == standard_team(),
            r@.len() == 2 * GROUP_SIZE,
            forall|i: int| 0 <= i < GROUP_SIZE ==> #[trigger] r@[i].team == 0,
            forall|i: int| GROUP_SIZE <= i < 2 * GROUP_SIZE ==> #[trigger] r@[i].team == 1,
    {
        let mut r = FBState::build_std_21_offense(0);
        let mut d = FBState::build_std_34_defense(1);
        r.append(&mut d);
        r
    }

    /// A state with an empty roster.
    pub fn new() -> (s: FBState)
        ensures
            s@.len() == 0,
    {
        let players = Vec::new();
        FBState { players }
    }

    /// The roster held by this state.
    pub fn players(&self) -> (r: &Vec<FBPlayer>)
        ensures
            r@ == self@,
    {
        &self.players
    }
}

/// Every offensive player's number is its slot's base number (the number it has for team 0)
/// plus the team tag, whenever the largest base plus the tag stays below 256; the order of
/// positions and the team tags do not depend on the tag.
pub proof fn lemma_offense_numbering(team: u8)
    requires
        TE_BASE + team <= u8::MAX,
    ensures
        offense(team).len() == GROUP_SIZE,
        forall|i: int|
            0 <= i < GROUP_SIZE ==> {
                &&& #[trigger] offense(team)[i].number == offense(0)[i].number + team
                &&& offense(team)[i].position == offense(0)[i].position
                &&& offense(team)[i].team == team
            },
{
}

/// Every defensive player's number is its slot's base number (the number it has for team 0)
/// plus the team tag, whenever the largest base plus the tag stays below 256; the order of
/// positions and the team tags do not depend on the tag.
pub proof fn lemma_defense_numbering(team: u8)
    requires
        DE2_BASE + team <= u8::MAX,
    ensures
        defense(team).len() == GROUP_SIZE,
        forall|i: int|
            0 <= i < GROUP_SIZE ==> {
                &&& #[trigger] defense(team)[i].number == defense(0)[i].number + team
                &&& defense(team)[i].position == defense(0)[i].position
                &&& defense(team)[i].team == team
            },
{
}

/// Building a grouping twice with the same team tag gives the same players, in the same order.
pub proof fn lemma_builders_deterministic(a: u8, b: u8)
    requires
        a == b,
    ensures
        offense(a) == offense(b),
        defense(a) == defense(b),
{
}

proof fn lemma_offense_numbers_unique(team: u8)
    ensures
        numbers_unique(offense(team)),
{
}

proof fn lemma_defense_numbers_unique(team: u8)
    ensures
        numbers_unique(defense(team)),
{
}

} // verus!
