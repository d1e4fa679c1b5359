//! Per-player display icons from the user's configuration. Loading the
//! configuration file happens outside this library; the parsed pairs are
//! handed in here.

use vstd::prelude::*;
use vstd::string::StringExecFns;
use crate::text::{contains_seq, find_sub, lower_of, lowercase, to_chars};

verus! {

/// The icon table: pairs of a player-name fragment and the icon shown for
/// players whose name contains that fragment.
pub struct Icons {
    pub players: Vec<(String, String)>,
}

/// The user's configuration.
pub struct Config {
    icons: Icons,
}

impl View for Config {
    type V = Seq<(Seq<char>, Seq<char>)>;

    closed spec fn view(&self) -> Seq<(Seq<char>, Seq<char>)> {
        Seq::new(
            self.icons.players@.len(),
            |i: int| (self.icons.players@[i].0@, self.icons.players@[i].1@),
        )
    }
}

/// The player name matches the table entry's fragment, ignoring case.
pub open spec fn icon_matches(player_name: Seq<char>, fragment: Seq<char>) -> bool {
    contains_seq(lower_of(player_name), lower_of(fragment))
}

impl Config {
    /// A configuration holding the given icon table.
    pub fn from_players(players: Vec<(String, String)>) -> (r: Config)
        ensures
            r@.len() == players@.len(),
            forall|i: int|
                0 <= i < players@.len() ==> r@[i] == (players@[i].0@, players@[i].1@),
    {
        Config { icons: Icons { players } }
    }

    /// The icon of the first table entry whose fragment occurs in the
    /// player's name, compared ignoring case; an empty string when none
    /// does.
    pub fn get_player_icon_by_partial_match(&self, player_name: &str) -> (r: String)
        ensures
            (exists|i: int| 0 <= i < self@.len() && icon_matches(player_name@, self@[i].0))
                ==> exists|i: int|
                {
                    &&& 0 <= i < self@.len()
                    &&& #[trigger] icon_matches(player_name@, self@[i].0)
                    &&& forall|j: int| 0 <= j < i ==> !icon_matches(player_name@, self@[j].0)
                    &&& r@ == self@[i].1
                },
            !(exists|i: int| 0 <= i < self@.len() && icon_matches(player_name@, self@[i].0))
                ==> r@.len() == 0,
    {
        let low_name = lowercase(player_name);
        let name_chars = to_chars(low_name.as_str());
        let n = self.icons.players.len();
        let mut i: usize = 0;
        while i < n
            invariant
                i <= n,
                n == self@.len(),
                name_chars@ == lower_of(player_name@),
                forall|j: int| 0 <= j < i ==> !icon_matches(player_name@, self@[j].0),
            decreases n - i,
        {
            let low_key = lowercase(self.icons.players[i].0.as_str());
            let key_chars = to_chars(low_key.as_str());
            match find_sub(&name_chars, &key_chars) {
                Some(_) => {
                    proof {
                        assert(icon_matches(player_name@, self@[i as int].0));
                    }
                    return self.icons.players[i].1.clone();
                },
                None => {
                    i = i + 1;
                },
            }
        }
        String::new()
    }
}

} // verus!
