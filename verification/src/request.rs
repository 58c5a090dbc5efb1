use vstd::prelude::*;
use vstd::string::*;

use crate::errors::ScrapeError;
use crate::utils::{
    Element, ElementFlags, Game, GameFlags, Position, PositionFlags, spec_elem_bit,
    spec_elem_req_str, spec_game_bit, spec_game_req_str, spec_pos_bit, spec_pos_str,
};

verus! {

/// The filter criteria of one catalog request: a name substring and three
/// independent category sets. An empty set means "no filter on this
/// dimension", never "match nothing".
#[derive(Debug, Clone)]
pub struct Request {
    pub name: String,
    pub elements: ElementFlags,
    pub positions: PositionFlags,
    pub games: GameFlags,
}

/// Whether the criteria select `e`'s element.
pub open spec fn spec_has_elem(r: Request, e: Element) -> bool {
    r.elements.bits & spec_elem_bit(e) == spec_elem_bit(e)
}

/// Whether the criteria select `p`'s position.
pub open spec fn spec_has_pos(r: Request, p: Position) -> bool {
    r.positions.bits & spec_pos_bit(p) == spec_pos_bit(p)
}

/// Whether the criteria select `g`'s edition.
pub open spec fn spec_has_game(r: Request, g: Game) -> bool {
    r.games.bits & spec_game_bit(g) == spec_game_bit(g)
}

/// One optional form parameter: present exactly when `b` holds.
pub open spec fn spec_opt_param(b: bool, k: Seq<char>, v: Seq<char>) -> Seq<
    (Seq<char>, Seq<char>),
> {
    if b {
        seq![(k, v)]
    } else {
        Seq::empty()
    }
}

/// The exact form parameters a request's criteria translate to: the two
/// base parameters, then the name filter if the name is non-empty, then
/// one parameter per selected element, position and edition, in the
/// order the filter menus list them.
pub open spec fn spec_params(r: Request) -> Seq<(Seq<char>, Seq<char>)> {
    seq![("rc"@, "0"@), ("per_page"@, "200"@)] + spec_opt_param(
        r.name@.len() > 0,
        "name_search"@,
        r.name@,
    ) + spec_opt_param(
        spec_has_elem(r, Element::FIRE),
        "attr_filter"@,
        spec_elem_req_str(Element::FIRE),
    ) + spec_opt_param(
        spec_has_elem(r, Element::FOREST),
        "attr_filter"@,
        spec_elem_req_str(Element::FOREST),
    ) + spec_opt_param(
        spec_has_elem(r, Element::MOUNTAIN),
        "attr_filter"@,
        spec_elem_req_str(Element::MOUNTAIN),
    ) + spec_opt_param(
        spec_has_elem(r, Element::WIND),
        "attr_filter"@,
        spec_elem_req_str(Element::WIND),
    ) + spec_opt_param(
        spec_has_pos(r, Position::FW),
        "pos_filter"@,
        spec_pos_str(Position::FW),
    ) + spec_opt_param(
        spec_has_pos(r, Position::MF),
        "pos_filter"@,
        spec_pos_str(Position::MF),
    ) + spec_opt_param(
        spec_has_pos(r, Position::DF),
        "pos_filter"@,
        spec_pos_str(Position::DF),
    ) + spec_opt_param(
        spec_has_pos(r, Position::GK),
        "pos_filter"@,
        spec_pos_str(Position::GK),
    ) + spec_opt_param(
        spec_has_game(r, Game::IE1),
        "version_filter"@,
        spec_game_req_str(Game::IE1),
    ) + spec_opt_param(
        spec_has_game(r, Game::IE2),
        "version_filter"@,
        spec_game_req_str(Game::IE2),
    ) + spec_opt_param(
        spec_has_game(r, Game::IE3),
        "version_filter"@,
        spec_game_req_str(Game::IE3),
    ) + spec_opt_param(
        spec_has_game(r, Game::GO1),
        "version_filter"@,
        spec_game_req_str(Game::GO1),
    ) + spec_opt_param(
        spec_has_game(r, Game::GO2),
        "version_filter"@,
        spec_game_req_str(Game::GO2),
    ) + spec_opt_param(
        spec_has_game(r, Game::GO3),
        "version_filter"@,
        spec_game_req_str(Game::GO3),
    ) + spec_opt_param(
        spec_has_game(r, Game::ARES),
        "version_filter"@,
        spec_game_req_str(Game::ARES),
    ) + spec_opt_param(
        spec_has_game(r, Game::ORION),
        "version_filter"@,
        spec_game_req_str(Game::ORION),
    ) + spec_opt_param(
        spec_has_game(r, Game::VR),
        "version_filter"@,
        spec_game_req_str(Game::VR),
    )
}

impl Request {
    /// Fresh criteria: empty name, no category selected.
    pub fn new() -> (r: Request)
        ensures
            r.name@ == Seq::<char>::empty(),
            r.elements.bits == 0,
            r.positions.bits == 0,
            r.games.bits == 0,
    {
        Request {
            name: String::new(),
            elements: ElementFlags::empty(),
            positions: PositionFlags::empty(),
            games: GameFlags::empty(),
        }
    }

    pub fn has_element(&self, element: &Element) -> (r: bool)
        ensures
            r == spec_has_elem(*self, *element),
    {
        self.elements.contains(element.flag())
    }

    pub fn toggle_element(&mut self, element: &Element)
        ensures
            final(self).elements.bits == (old(self).elements.bits ^ spec_elem_bit(*element)),
            final(self).name == old(self).name,
            final(self).positions == old(self).positions,
            final(self).games == old(self).games,
    {
        self.elements.toggle(element.flag());
    }

    pub fn has_position(&self, position: &Position) -> (r: bool)
        ensures
            r == spec_has_pos(*self, *position),
    {
        self.positions.contains(position.flag())
    }

    pub fn toggle_position(&mut self, position: &Position)
        ensures
            final(self).positions.bits == (old(self).positions.bits ^ spec_pos_bit(*position)),
            final(self).name == old(self).name,
            final(self).elements == old(self).elements,
            final(self).games == old(self).games,
    {
        self.positions.toggle(position.flag());
    }

    pub fn has_game(&self, game: &Game) -> (r: bool)
        ensures
            r == spec_has_game(*self, *game),
    {
        self.games.contains(game.flag())
    }

    pub fn toggle_game(&mut self, game: &Game)
        ensures
            final(self).games.bits == (old(self).games.bits ^ spec_game_bit(*game)),
            final(self).name == old(self).name,
            final(self).elements == old(self).elements,
            final(self).positions == old(self).positions,
    {
        self.games.toggle(game.flag());
    }

    /// Builds the form parameters of the first listing request from the
    /// criteria, exactly as `spec_params` lays them out.
    #[verifier::rlimit(100)]
    pub fn build_params(&self) -> (r: Vec<(String, String)>)
        ensures
            r.deep_view() == spec_params(*self),
    {
        let mut params: Vec<(String, String)> = Vec::new();
        push_param_if(&mut params, true, "rc", "0");
        push_param_if(&mut params, true, "per_page", "200");
        assert(params.deep_view() =~= seq![("rc"@, "0"@), ("per_page"@, "200"@)]);
        push_param_if(&mut params, !self.name.as_str().is_empty(), "name_search", self.name.as_str());
        push_param_if(&mut params, self.has_element(&Element::FIRE), "attr_filter", Element::FIRE.req_str());
        push_param_if(&mut params, self.has_element(&Element::FOREST), "attr_filter", Element::FOREST.req_str());
        push_param_if(&mut params, self.has_element(&Element::MOUNTAIN), "attr_filter", Element::MOUNTAIN.req_str());
        push_param_if(&mut params, self.has_element(&Element::WIND), "attr_filter", Element::WIND.req_str());
        push_param_if(&mut params, self.has_position(&Position::FW), "pos_filter", Position::FW.to_str());
        push_param_if(&mut params, self.has_position(&Position::MF), "pos_filter", Position::MF.to_str());
        push_param_if(&mut params, self.has_position(&Position::DF), "pos_filter", Position::DF.to_str());
        push_param_if(&mut params, self.has_position(&Position::GK), "pos_filter", Position::GK.to_str());
        push_param_if(&mut params, self.has_game(&Game::IE1), "version_filter", Game::IE1.req_str());
        push_param_if(&mut params, self.has_game(&Game::IE2), "version_filter", Game::IE2.req_str());
        push_param_if(&mut params, self.has_game(&Game::IE3), "version_filter", Game::IE3.req_str());
        push_param_if(&mut params, self.has_game(&Game::GO1), "version_filter", Game::GO1.req_str());
        push_param_if(&mut params, self.has_game(&Game::GO2), "version_filter", Game::GO2.req_str());
        push_param_if(&mut params, self.has_game(&Game::GO3), "version_filter", Game::GO3.req_str());
        push_param_if(&mut params, self.has_game(&Game::ARES), "version_filter", Game::ARES.req_str());
        push_param_if(&mut params, self.has_game(&Game::ORION), "version_filter", Game::ORION.req_str());
        push_param_if(&mut params, self.has_game(&Game::VR), "version_filter", Game::VR.req_str());
        assert(params.deep_view() =~= spec_params(*self));
        params
    }
}

/// Appends one optional form parameter: pushed exactly when `cond` holds.
fn push_param_if(params: &mut Vec<(String, String)>, cond: bool, key: &str, val: &str)
    ensures
        final(params).deep_view() == old(params).deep_view() + spec_opt_param(cond, key@, val@),
{
    if cond {
        params.push((String::from_str(key), String::from_str(val)));
    }
    assert(params.deep_view() =~= old(params).deep_view() + spec_opt_param(cond, key@, val@));
}

/// A wholly empty filter: no name substring and no category selected.
pub open spec fn spec_filter_empty(r: Request) -> bool {
    r.name@.len() == 0 && r.elements.bits == 0 && r.positions.bits == 0 && r.games.bits == 0
}

/// An entirely empty filter set is equivalent to no filtering: the
/// request carries exactly the two base parameters and nothing else.
pub proof fn lemma_empty_filter_is_no_filter(r: Request)
    requires
        spec_filter_empty(r),
    ensures
        spec_params(r) =~= seq![("rc"@, "0"@), ("per_page"@, "200"@)],
{
    let eb = r.elements.bits;
    assert(eb & 0x01u8 != 0x01u8 && eb & 0x02u8 != 0x02u8 && eb & 0x04u8 != 0x04u8 && eb
        & 0x08u8 != 0x08u8) by (bit_vector)
        requires
            eb == 0u8,
    ;
    let pb = r.positions.bits;
    assert(pb & 0x01u8 != 0x01u8 && pb & 0x02u8 != 0x02u8 && pb & 0x04u8 != 0x04u8 && pb
        & 0x08u8 != 0x08u8) by (bit_vector)
        requires
            pb == 0u8,
    ;
    let gb = r.games.bits;
    assert(gb & 0x001u16 != 0x001u16 && gb & 0x002u16 != 0x002u16 && gb & 0x004u16 != 0x004u16
        && gb & 0x008u16 != 0x008u16 && gb & 0x010u16 != 0x010u16 && gb & 0x020u16 != 0x020u16
        && gb & 0x040u16 != 0x040u16 && gb & 0x080u16 != 0x080u16 && gb & 0x100u16
        != 0x100u16) by (bit_vector)
        requires
            gb == 0u16,
    ;
}

/// Valid range of the concurrency limit: at least one in-flight request,
/// at most fifty.
pub fn validate_parallelism(limit: usize) -> (r: Result<usize, ScrapeError>)
    ensures
        1 <= limit <= 50 ==> r == Ok::<usize, ScrapeError>(limit),
        !(1 <= limit <= 50) ==> r == Err::<usize, ScrapeError>(ScrapeError::Config),
{
    if 1 <= limit && limit <= 50 {
        Ok(limit)
    } else {
        Err(ScrapeError::Config)
    }
}

} // verus!
