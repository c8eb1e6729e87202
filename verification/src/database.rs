use crate::engine::game::GameState;
use crate::engine::player::sha256_hex;
use crate::text::decimal;
use crate::text::decimal_string;
use vstd::prelude::*;
use vstd::string::StringExecFns;

verus! {

/// A store of saved games as files under one directory.
#[derive(Debug, Clone)]
pub struct JsonDatabase {
    pub base_path: String,
}

/// Where the game state is kept under `base_path`.
pub open spec fn state_path_of(base_path: Seq<char>) -> Seq<char> {
    base_path + "/game_state.json"@
}

/// Where a player's view is kept under `base_path`.
pub open spec fn view_path_of(base_path: Seq<char>, player_id: u8) -> Seq<char> {
    base_path + "/player_"@ + decimal(player_id as nat) + "_view.dat"@
}

/// Why a player's stored view is not handed out, if it is not: the id is
/// not a player's, or the password does not open the player's record.
pub open spec fn view_refusal(
    state: crate::engine::game::GameView,
    player_id: u8,
    password: Seq<char>,
) -> Option<Seq<char>> {
    if player_id >= state.players.len() {
        Some("Invalid player ID"@)
    } else if !state.players[player_id as int].accepts_hash(sha256_hex(password)) {
        Some("Invalid password"@)
    } else {
        None
    }
}

impl JsonDatabase {
    pub fn new(base_path: String) -> (database: JsonDatabase)
        ensures
            database.base_path == base_path,
    {
        JsonDatabase { base_path }
    }

    /// The file that holds the game state.
    pub fn state_path(&self) -> (path: String)
        ensures
            path@ == state_path_of(self.base_path@),
    {
        let mut path = String::from_str(self.base_path.as_str());
        path.append("/game_state.json");
        path
    }

    /// The file that holds the view of a player.
    pub fn player_view_path(&self, player_id: u8) -> (path: String)
        ensures
            path@ == view_path_of(self.base_path@, player_id),
    {
        let mut path = String::from_str(self.base_path.as_str());
        path.append("/player_");
        path.append(decimal_string(player_id as u64).as_str());
        path.append("_view.dat");
        path
    }

    /// Decides whether a player's stored view may be handed out for a
    /// password, against the saved game.
    pub fn check_view_access(state: &GameState, player_id: u8, password: &str) -> (access: Result<
        (),
        String,
    >)
        ensures
            match access {
                Ok(()) => view_refusal(state@, player_id, password@) is None,
                Err(reason) => view_refusal(state@, player_id, password@) == Some(reason@),
            },
    {
        if player_id as usize >= state.players.len() {
            return Err(String::from_str("Invalid player ID"));
        }
        if !state.players[player_id as usize].verify_password(password) {
            return Err(String::from_str("Invalid password"));
        }
        Ok(())
    }
}

} // verus!
