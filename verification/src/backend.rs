//! Client-side view of the persisted schema's hypothetical consumers:
//! tile-to-country bindings and the update events that change them.

use vstd::prelude::*;

use std::collections::HashMap;

verus! {

/// Assigns a clicked tile to a country.
pub trait TileClicker {
    fn click_tile(&mut self, tile_id: u32, country_id: String);
}

/// The tile-to-country bindings a client holds.
#[derive(Clone, Debug)]
pub struct Ownerships {
    pub bindings: HashMap<u32, String>,
}

impl Ownerships {
    /// No tile bound to any country.
    pub fn new() -> (r: Ownerships)
        ensures
            r.bindings@ == Map::<u32, String>::empty(),
    {
        Ownerships { bindings: HashMap::new() }
    }

    /// Binds one tile to a country, replacing any previous binding.
    pub fn set_binding(&mut self, tile_id: u32, country_id: String)
        ensures
            final(self).bindings@ == old(self).bindings@.insert(tile_id, country_id),
    {
        broadcast use vstd::std_specs::hash::group_hash_axioms;

        self.bindings.insert(tile_id, country_id);
    }

    /// All bindings held.
    pub fn get_bindings(&self) -> (r: &HashMap<u32, String>)
        ensures
            r@ == self.bindings@,
    {
        &self.bindings
    }
}

/// One tile changing hands.
#[derive(Clone, Debug)]
pub struct Update {
    pub tile: u32,
    pub previous_country: Option<String>,
    pub new_country: String,
}

impl Update {
    /// An update carrying exactly the given fields.
    pub fn new(tile: u32, previous_country: Option<String>, new_country: String) -> (r: Update)
        ensures
            r.tile == tile,
            r.previous_country == previous_country,
            r.new_country == new_country,
    {
        Update { tile, previous_country, new_country }
    }
}

} // verus!
