use vstd::prelude::*;

verus! {

/// Base origin of the remote catalog; relative detail links are resolved
/// against it.
pub const BASE_URL: &'static str = "https://zukan.inazuma.jp";

/// Path of the listing endpoint, relative to `BASE_URL`.
pub const SEARCH_URL: &'static str = "/en/chara_list/process_form";

/// Elemental affinity of a character.
#[derive(Debug, Clone, Copy, PartialEq, Eq, Structural)]
pub enum Element {
    MOUNTAIN,
    FIRE,
    FOREST,
    WIND,
    NONE,
}

/// The string the listing endpoint expects for an element filter.
pub open spec fn spec_elem_req_str(e: Element) -> Seq<char> {
    match e {
        Element::MOUNTAIN => "山"@,
        Element::FIRE => "火"@,
        Element::FOREST => "林"@,
        Element::WIND => "風"@,
        Element::NONE => ""@,
    }
}

/// The string the cache stores for an element.
pub open spec fn spec_elem_db_str(e: Element) -> Seq<char> {
    match e {
        Element::MOUNTAIN => "Mountain"@,
        Element::FIRE => "Fire"@,
        Element::FOREST => "Forest"@,
        Element::WIND => "Wind"@,
        Element::NONE => "Unknown"@,
    }
}

/// The single bit standing for an element in an `ElementFlags` set.
pub open spec fn spec_elem_bit(e: Element) -> u8 {
    match e {
        Element::FOREST => 0x01u8,
        Element::FIRE => 0x02u8,
        Element::WIND => 0x04u8,
        Element::MOUNTAIN => 0x08u8,
        Element::NONE => 0x10u8,
    }
}

impl Element {
    pub fn req_str(&self) -> (r: &'static str)
        ensures
            r@ == spec_elem_req_str(*self),
    {
        match self {
            Self::MOUNTAIN => "山",
            Self::FIRE => "火",
            Self::FOREST => "林",
            Self::WIND => "風",
            Self::NONE => "",
        }
    }

    pub fn db_str(&self) -> (r: &'static str)
        ensures
            r@ == spec_elem_db_str(*self),
    {
        match self {
            Self::MOUNTAIN => "Mountain",
            Self::FIRE => "Fire",
            Self::FOREST => "Forest",
            Self::WIND => "Wind",
            Self::NONE => "Unknown",
        }
    }

    pub fn flag(self) -> (r: ElementFlags)
        ensures
            r.bits == spec_elem_bit(self),
    {
        match self {
            Element::FOREST => ElementFlags { bits: 0x01 },
            Element::FIRE => ElementFlags { bits: 0x02 },
            Element::WIND => ElementFlags { bits: 0x04 },
            Element::MOUNTAIN => ElementFlags { bits: 0x08 },
            Element::NONE => ElementFlags { bits: 0x10 },
        }
    }
}

/// A set of elements, one bit per element.
#[derive(Debug, Clone, Copy, PartialEq, Eq, Structural)]
pub struct ElementFlags {
    pub bits: u8,
}

impl ElementFlags {
    pub fn empty() -> (r: ElementFlags)
        ensures
            r.bits == 0,
    {
        ElementFlags { bits: 0 }
    }

    pub fn contains(&self, other: ElementFlags) -> (r: bool)
        ensures
            r == (self.bits & other.bits == other.bits),
    {
        self.bits & other.bits == other.bits
    }

    pub fn toggle(&mut self, other: ElementFlags)
        ensures
            final(self).bits == (old(self).bits ^ other.bits),
    {
        self.bits = self.bits ^ other.bits;
    }
}

/// Field position of a character.
#[derive(Debug, Clone, Copy, PartialEq, Eq, Structural)]
pub enum Position {
    GK,
    DF,
    MF,
    FW,
    NONE,
}

/// The string standing for a position, both in requests and in the cache.
pub open spec fn spec_pos_str(p: Position) -> Seq<char> {
    match p {
        Position::GK => "GK"@,
        Position::DF => "DF"@,
        Position::MF => "MF"@,
        Position::FW => "FW"@,
        Position::NONE => ""@,
    }
}

/// The single bit standing for a position in a `PositionFlags` set.
pub open spec fn spec_pos_bit(p: Position) -> u8 {
    match p {
        Position::GK => 0x01u8,
        Position::DF => 0x02u8,
        Position::MF => 0x04u8,
        Position::FW => 0x08u8,
        Position::NONE => 0x10u8,
    }
}

impl Position {
    pub fn to_str(&self) -> (r: &'static str)
        ensures
            r@ == spec_pos_str(*self),
    {
        match self {
            Self::GK => "GK",
            Self::DF => "DF",
            Self::MF => "MF",
            Self::FW => "FW",
            Self::NONE => "",
        }
    }

    pub fn flag(&self) -> (r: PositionFlags)
        ensures
            r.bits == spec_pos_bit(*self),
    {
        match self {
            Position::GK => PositionFlags { bits: 0x01 },
            Position::DF => PositionFlags { bits: 0x02 },
            Position::MF => PositionFlags { bits: 0x04 },
            Position::FW => PositionFlags { bits: 0x08 },
            Position::NONE => PositionFlags { bits: 0x10 },
        }
    }
}

/// A set of positions, one bit per position.
#[derive(Debug, Clone, Copy, PartialEq, Eq, Structural)]
pub struct PositionFlags {
    pub bits: u8,
}

impl PositionFlags {
    pub fn empty() -> (r: PositionFlags)
        ensures
            r.bits == 0,
    {
        PositionFlags { bits: 0 }
    }

    pub fn contains(&self, other: PositionFlags) -> (r: bool)
        ensures
            r == (self.bits & other.bits == other.bits),
    {
        self.bits & other.bits == other.bits
    }

    pub fn toggle(&mut self, other: PositionFlags)
        ensures
            final(self).bits == (old(self).bits ^ other.bits),
    {
        self.bits = self.bits ^ other.bits;
    }
}

/// Source edition a character appears in.
#[derive(Debug, Clone, Copy, PartialEq, Eq, Structural)]
pub enum Game {
    IE1,
    IE2,
    IE3,
    GO1,
    GO2,
    GO3,
    ARES,
    ORION,
    VR,
}

/// The string the listing endpoint expects for an edition filter.
pub open spec fn spec_game_req_str(g: Game) -> Seq<char> {
    match g {
        Game::IE1 => "IE1"@,
        Game::IE2 => "IE2"@,
        Game::IE3 => "IE3"@,
        Game::GO1 => "GO1"@,
        Game::GO2 => "GO2"@,
        Game::GO3 => "GO3"@,
        Game::ARES => "アレス"@,
        Game::ORION => "オリオン"@,
        Game::VR => "Vロード"@,
    }
}

/// The display name of an edition.
pub open spec fn spec_game_str(g: Game) -> Seq<char> {
    match g {
        Game::IE1 => "IE 1"@,
        Game::IE2 => "IE 2"@,
        Game::IE3 => "IE 3"@,
        Game::GO1 => "GO"@,
        Game::GO2 => "GO Chrono Stones"@,
        Game::GO3 => "GO Galaxy"@,
        Game::ARES => "Ares"@,
        Game::ORION => "Orion"@,
        Game::VR => "Victory Road"@,
    }
}

/// The single bit standing for an edition in a `GameFlags` set.
pub open spec fn spec_game_bit(g: Game) -> u16 {
    match g {
        Game::IE1 => 0x001u16,
        Game::IE2 => 0x002u16,
        Game::IE3 => 0x004u16,
        Game::GO1 => 0x008u16,
        Game::GO2 => 0x010u16,
        Game::GO3 => 0x020u16,
        Game::ARES => 0x040u16,
        Game::ORION => 0x080u16,
        Game::VR => 0x100u16,
    }
}

impl Game {
    pub fn req_str(&self) -> (r: &'static str)
        ensures
            r@ == spec_game_req_str(*self),
    {
        match self {
            Game::IE1 => "IE1",
            Game::IE2 => "IE2",
            Game::IE3 => "IE3",
            Game::GO1 => "GO1",
            Game::GO2 => "GO2",
            Game::GO3 => "GO3",
            Game::ARES => "アレス",
            Game::ORION => "オリオン",
            Game::VR => "Vロード",
        }
    }

    pub fn to_str(&self) -> (r: &'static str)
        ensures
            r@ == spec_game_str(*self),
    {
        match self {
            Game::IE1 => "IE 1",
            Game::IE2 => "IE 2",
            Game::IE3 => "IE 3",
            Game::GO1 => "GO",
            Game::GO2 => "GO Chrono Stones",
            Game::GO3 => "GO Galaxy",
            Game::ARES => "Ares",
            Game::ORION => "Orion",
            Game::VR => "Victory Road",
        }
    }

    pub fn flag(&self) -> (r: GameFlags)
        ensures
            r.bits == spec_game_bit(*self),
    {
        match self {
            Game::IE1 => GameFlags { bits: 0x001 },
            Game::IE2 => GameFlags { bits: 0x002 },
            Game::IE3 => GameFlags { bits: 0x004 },
            Game::GO1 => GameFlags { bits: 0x008 },
            Game::GO2 => GameFlags { bits: 0x010 },
            Game::GO3 => GameFlags { bits: 0x020 },
            Game::ARES => GameFlags { bits: 0x040 },
            Game::ORION => GameFlags { bits: 0x080 },
            Game::VR => GameFlags { bits: 0x100 },
        }
    }
}

/// A set of editions, one bit per edition.
#[derive(Debug, Clone, Copy, PartialEq, Eq, Structural)]
pub struct GameFlags {
    pub bits: u16,
}

impl GameFlags {
    pub fn empty() -> (r: GameFlags)
        ensures
            r.bits == 0,
    {
        GameFlags { bits: 0 }
    }

    pub fn contains(&self, other: GameFlags) -> (r: bool)
        ensures
            r == (self.bits & other.bits == other.bits),
    {
        self.bits & other.bits == other.bits
    }

    pub fn toggle(&mut self, other: GameFlags)
        ensures
            final(self).bits == (old(self).bits ^ other.bits),
    {
        self.bits = self.bits ^ other.bits;
    }
}

/// The elements a filter menu offers, in the order requests list them.
pub fn element_list() -> (r: Vec<Element>)
    ensures
        r@ == seq![Element::FIRE, Element::FOREST, Element::MOUNTAIN, Element::WIND],
{
    let mut v: Vec<Element> = Vec::new();
    v.push(Element::FIRE);
    v.push(Element::FOREST);
    v.push(Element::MOUNTAIN);
    v.push(Element::WIND);
    assert(v@ =~= seq![Element::FIRE, Element::FOREST, Element::MOUNTAIN, Element::WIND]);
    v
}

/// The positions a filter menu offers, in the order requests list them.
pub fn position_list() -> (r: Vec<Position>)
    ensures
        r@ == seq![Position::FW, Position::MF, Position::DF, Position::GK],
{
    let mut v: Vec<Position> = Vec::new();
    v.push(Position::FW);
    v.push(Position::MF);
    v.push(Position::DF);
    v.push(Position::GK);
    assert(v@ =~= seq![Position::FW, Position::MF, Position::DF, Position::GK]);
    v
}

/// The editions a filter menu offers, in the order requests list them.
pub fn game_list() -> (r: Vec<Game>)
    ensures
        r@ == seq![
            Game::IE1,
            Game::IE2,
            Game::IE3,
            Game::GO1,
            Game::GO2,
            Game::GO3,
            Game::ARES,
            Game::ORION,
            Game::VR,
        ],
{
    let mut v: Vec<Game> = Vec::new();
    v.push(Game::IE1);
    v.push(Game::IE2);
    v.push(Game::IE3);
    v.push(Game::GO1);
    v.push(Game::GO2);
    v.push(Game::GO3);
    v.push(Game::ARES);
    v.push(Game::ORION);
    v.push(Game::VR);
    assert(v@ =~= seq![
        Game::IE1,
        Game::IE2,
        Game::IE3,
        Game::GO1,
        Game::GO2,
        Game::GO3,
        Game::ARES,
        Game::ORION,
        Game::VR,
    ]);
    v
}

/// The seven bounded attributes of a character's detail page.
/// A stat block is either fully present or absent; there is no partial state.
#[derive(Debug, Clone, Copy, PartialEq, Eq, Structural)]
pub struct Stats {
    pub kick: u8,
    pub control: u8,
    pub technique: u8,
    pub pressure: u8,
    pub physical: u8,
    pub agility: u8,
    pub intelligence: u8,
}

/// The summary of one character as the listing shows it, enriched with a
/// stat block once the detail phase has resolved it.
#[derive(Debug, Clone, PartialEq)]
pub struct Character {
    pub number: u16,
    pub name: String,
    pub nickname: String,
    pub element: Element,
    pub position: Position,
    pub stats: Option<Stats>,
    pub page_url: String,
}

/// The column a presentation layer sorts the result table by.
#[derive(Debug, Clone, Copy, PartialEq, Eq, Structural)]
pub enum SortColumn {
    ID,
    Name,
    Kick,
    Control,
    Technique,
    Pressure,
    Physical,
    Agility,
    Intelligence,
}

/// Completion counters of the two fetch phases: listing pages and
/// character details. Each phase holds a `(done, total)` pair and a flag
/// that flips when the last unit of the phase completes.
#[derive(Debug, Clone, Copy, PartialEq, Eq, Structural)]
pub struct InternalProgress {
    pub page_done: u8,
    pub page_total: u8,
    pub char_done: u16,
    pub char_total: u16,
    pub pages_fetched: bool,
    pub characters_fetched: bool,
}

impl InternalProgress {
    /// Well-formedness: `done` never exceeds `total`, and a completion
    /// flag stands only when the whole phase is done.
    pub open spec fn wf(&self) -> bool {
        &&& self.page_done <= self.page_total
        &&& self.char_done <= self.char_total
        &&& (self.pages_fetched ==> self.page_done == self.page_total && self.page_total > 0)
        &&& (self.characters_fetched ==> self.char_done == self.char_total && self.char_total
            > 0)
    }

    /// Declares how many listing pages the run will fetch. Called once per
    /// run, before any page increment.
    pub fn set_page_total(&mut self, total: u8)
        requires
            old(self).wf(),
            old(self).page_done == 0,
            !old(self).pages_fetched,
        ensures
            final(self).wf(),
            *final(self) == (InternalProgress { page_total: total, ..*old(self) }),
    {
        self.page_total = total;
    }

    /// Records one more fetched listing page; flips the listing flag when
    /// the count reaches the declared total.
    pub fn inc_page(&mut self)
        requires
            old(self).wf(),
            old(self).page_done < old(self).page_total,
        ensures
            final(self).wf(),
            final(self).page_done == old(self).page_done + 1,
            final(self).page_total == old(self).page_total,
            final(self).pages_fetched == (final(self).page_done == final(self).page_total),
            final(self).char_done == old(self).char_done,
            final(self).char_total == old(self).char_total,
            final(self).characters_fetched == old(self).characters_fetched,
    {
        self.page_done = self.page_done + 1;
        if self.page_done == self.page_total {
            self.pages_fetched = true;
        }
    }

    /// Declares how many character details the run will resolve. Called
    /// once per run, before any character increment.
    pub fn set_char_total(&mut self, total: u16)
        requires
            old(self).wf(),
            old(self).char_done == 0,
            !old(self).characters_fetched,
        ensures
            final(self).wf(),
            *final(self) == (InternalProgress { char_total: total, ..*old(self) }),
    {
        self.char_total = total;
    }

    /// Records one more resolved character; flips the character flag when
    /// the count reaches the declared total.
    pub fn inc_char(&mut self)
        requires
            old(self).wf(),
            old(self).char_done < old(self).char_total,
        ensures
            final(self).wf(),
            final(self).char_done == old(self).char_done + 1,
            final(self).char_total == old(self).char_total,
            final(self).characters_fetched == (final(self).char_done == final(self).char_total),
            final(self).page_done == old(self).page_done,
            final(self).page_total == old(self).page_total,
            final(self).pages_fetched == old(self).pages_fetched,
    {
        self.char_done = self.char_done + 1;
        if self.char_done == self.char_total {
            self.characters_fetched = true;
        }
    }

    /// Snapshot of the listing phase as `(done, total)`.
    pub fn pages(&self) -> (r: (u8, u8))
        ensures
            r.0 == self.page_done,
            r.1 == self.page_total,
    {
        (self.page_done, self.page_total)
    }

    /// Snapshot of the character phase as `(done, total)`.
    pub fn characters(&self) -> (r: (u16, u16))
        ensures
            r.0 == self.char_done,
            r.1 == self.char_total,
    {
        (self.char_done, self.char_total)
    }

    /// Whether every listing page of the run has been fetched.
    pub fn pages_done(&self) -> (r: bool)
        ensures
            r == self.pages_fetched,
    {
        self.pages_fetched
    }

    /// Whether every character of the run has been resolved.
    pub fn characters_done(&self) -> (r: bool)
        ensures
            r == self.characters_fetched,
    {
        self.characters_fetched
    }
}

/// Progress counters satisfy `done <= total` whenever they are
/// well-formed, and each increment both preserves well-formedness and
/// raises `done` by exactly one — so `done` never regresses and never
/// passes `total` within a phase.
pub proof fn lemma_progress_bounded(p: InternalProgress)
    requires
        p.wf(),
    ensures
        p.page_done <= p.page_total,
        p.char_done <= p.char_total,
{
}

/// A handle on the shared progress counters. A presentation layer polls
/// it while the pipeline updates it.
#[derive(Debug, Clone, Copy, PartialEq, Eq, Structural)]
pub struct Progress {
    pub internal: InternalProgress,
}

impl Progress {
    pub fn new() -> (r: Progress)
        ensures
            r.internal.wf(),
            r.internal.page_done == 0,
            r.internal.page_total == 0,
            r.internal.char_done == 0,
            r.internal.char_total == 0,
            !r.internal.pages_fetched,
            !r.internal.characters_fetched,
    {
        Progress {
            internal: InternalProgress {
                page_done: 0,
                page_total: 0,
                char_done: 0,
                char_total: 0,
                pages_fetched: false,
                characters_fetched: false,
            },
        }
    }
}

} // verus!
