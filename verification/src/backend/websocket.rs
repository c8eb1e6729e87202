use crate::backend::game::Command;
use crate::backend::game::CommandView;
use crate::backend::game::GameState;
use crate::backend::game::GameView;
use crate::backend::game::SectorView;
use crate::backend::game::option_text;
use crate::engine::actions::lowercase;
use crate::engine::actions::lowercase_of;
use crate::text::same_text;
use crate::text::split_words;
use crate::text::texts;
use crate::text::words_of;
use vstd::prelude::*;
use vstd::string::StringExecFns;

verus! {

/// What a client is told of a player.
#[derive(Debug, Clone, Copy, PartialEq, Eq, Structural)]
pub struct PlayerUpdate {
    pub ap: i32,
    pub max_ap: i32,
    pub credits: i32,
    pub level: u32,
    pub ship_count: usize,
}

/// What a client is told of a sector.
#[derive(Debug)]
pub struct SectorUpdate {
    pub id: String,
    pub name: String,
    pub position: (i32, i32),
    pub controlled_by: Option<String>,
    pub ship_count: usize,
    pub has_garrison: bool,
}

pub struct SectorUpdateView {
    pub id: Seq<char>,
    pub name: Seq<char>,
    pub position: (i32, i32),
    pub controlled_by: Option<Seq<char>>,
    pub ship_count: usize,
    pub has_garrison: bool,
}

impl View for SectorUpdate {
    type V = SectorUpdateView;

    open spec fn view(&self) -> SectorUpdateView {
        SectorUpdateView {
            id: self.id@,
            name: self.name@,
            position: self.position,
            controlled_by: option_text(self.controlled_by),
            ship_count: self.ship_count,
            has_garrison: self.has_garrison,
        }
    }
}

/// The update for a player id: the player's figures, or zeros for an id
/// that no player has.
pub open spec fn player_update_of(state: GameView, player_id: Seq<char>) -> PlayerUpdate {
    match state.find_player(player_id) {
        Some(index) => PlayerUpdate {
            ap: state.players[index].current_ap as i32,
            max_ap: state.players[index].max_ap as i32,
            credits: state.players[index].credits as i32,
            level: state.players[index].level as u32,
            ship_count: state.players[index].owned_ships.len() as usize,
        },
        None => PlayerUpdate { ap: 0, max_ap: 0, credits: 0, level: 0, ship_count: 0 },
    }
}

/// The update for a sector.
pub open spec fn sector_update_of(sector: SectorView) -> SectorUpdateView {
    SectorUpdateView {
        id: sector.id,
        name: sector.name,
        position: sector.position,
        controlled_by: sector.controlled_by,
        ship_count: sector.ships_present.len() as usize,
        has_garrison: sector.garrison_ship is Some,
    }
}

pub open spec fn update_views(updates: Seq<SectorUpdate>) -> Seq<SectorUpdateView> {
    Seq::new(updates.len(), |i: int| updates[i]@)
}

/// The command that the words of a message stand for, given the first word
/// in lower case.
pub open spec fn command_named(words: Seq<Seq<char>>, keyword: Seq<char>) -> Result<
    CommandView,
    Seq<char>,
> {
    if keyword == "move"@ {
        if words.len() < 3 {
            Err("Usage: move <ship-id> <sector-id>"@)
        } else {
            Ok(CommandView::Move { ship_id: words[1], sector_id: words[2] })
        }
    } else if keyword == "scan"@ {
        if words.len() < 2 {
            Err("Usage: scan <sector-id>"@)
        } else {
            Ok(CommandView::Scan { sector_id: words[1] })
        }
    } else if keyword == "status"@ {
        Ok(CommandView::Status)
    } else if keyword == "fleet"@ {
        Ok(CommandView::Fleet)
    } else if keyword == "declare"@ {
        if words.len() < 3 {
            Err("Usage: declare <sector-id> <command-ship-id>"@)
        } else {
            Ok(CommandView::DeclareControl { sector_id: words[1], command_ship_id: words[2] })
        }
    } else if keyword == "garrison"@ {
        if words.len() < 3 {
            Err("Usage: garrison <sector-id> <garrison-ship-id>"@)
        } else {
            Ok(CommandView::SetGarrison { sector_id: words[1], garrison_ship_id: words[2] })
        }
    } else {
        Err("Unknown command: "@ + words[0])
    }
}

/// The command that the words of a message stand for.
pub open spec fn command_of(words: Seq<Seq<char>>) -> Result<CommandView, Seq<char>> {
    if words.len() == 0 {
        Err("Empty command"@)
    } else {
        command_named(words, lowercase_of(words[0]))
    }
}

/// Whether a parse gave what the grammar gives.
pub open spec fn reads_as(parsed: Result<Command, String>, expected: Result<
    CommandView,
    Seq<char>,
>) -> bool {
    match parsed {
        Ok(command) => expected == Ok::<CommandView, Seq<char>>(command@),
        Err(reason) => expected == Err::<CommandView, Seq<char>>(reason@),
    }
}

/// Maps the words of a message, the first of them given in lower case as
/// well, to a command.
pub fn command_for(words: &Vec<String>, keyword: &str) -> (parsed: Result<Command, String>)
    requires
        words.len() > 0,
    ensures
        reads_as(parsed, command_named(texts(words@), keyword@)),
{
    proof {
        assert(texts(words@)[0] == words@[0]@);
        if words.len() > 1 {
            assert(texts(words@)[1] == words@[1]@);
        }
        if words.len() > 2 {
            assert(texts(words@)[2] == words@[2]@);
        }
    }
    if same_text(keyword, "move") {
        if words.len() < 3 {
            return Err(String::from_str("Usage: move <ship-id> <sector-id>"));
        }
        Ok(Command::Move { ship_id: words[1].clone(), sector_id: words[2].clone() })
    } else if same_text(keyword, "scan") {
        if words.len() < 2 {
            return Err(String::from_str("Usage: scan <sector-id>"));
        }
        Ok(Command::Scan { sector_id: words[1].clone() })
    } else if same_text(keyword, "status") {
        Ok(Command::Status)
    } else if same_text(keyword, "fleet") {
        Ok(Command::Fleet)
    } else if same_text(keyword, "declare") {
        if words.len() < 3 {
            return Err(String::from_str("Usage: declare <sector-id> <command-ship-id>"));
        }
        Ok(Command::DeclareControl { sector_id: words[1].clone(), command_ship_id: words[2].clone() })
    } else if same_text(keyword, "garrison") {
        if words.len() < 3 {
            return Err(String::from_str("Usage: garrison <sector-id> <garrison-ship-id>"));
        }
        Ok(
            Command::SetGarrison {
                sector_id: words[1].clone(),
                garrison_ship_id: words[2].clone(),
            },
        )
    } else {
        let mut reason = String::from_str("Unknown command: ");
        reason.append(words[0].as_str());
        Err(reason)
    }
}

/// Reads a message of the form `<verb> [args...]` as a command.
pub fn parse_command(input: &str) -> (parsed: Result<Command, String>)
    ensures
        reads_as(parsed, command_of(words_of(input@))),
{
    let words = split_words(input);
    if words.len() == 0 {
        return Err(String::from_str("Empty command"));
    }
    proof {
        assert(texts(words@)[0] == words@[0]@);
    }
    let keyword = lowercase(words[0].as_str());
    command_for(&words, keyword.as_str())
}

/// What a client is told of the player with the given id.
pub fn get_player_update(game_state: &GameState, player_id: &str) -> (update: PlayerUpdate)
    ensures
        update == player_update_of(game_state@, player_id@),
{
    match game_state.find_player(player_id) {
        Some(index) => {
            assert(game_state@.players[index as int] == game_state.players@[index as int]@);
            let player = &game_state.players[index];
            PlayerUpdate {
                ap: player.current_ap,
                max_ap: player.max_ap,
                credits: player.credits,
                level: player.level,
                ship_count: player.owned_ships.len(),
            }
        },
        None => PlayerUpdate { ap: 0, max_ap: 0, credits: 0, level: 0, ship_count: 0 },
    }
}

/// What a client is told of the sectors, in their order.
pub fn get_sector_updates(game_state: &GameState) -> (updates: Vec<SectorUpdate>)
    ensures
        update_views(updates@) == Seq::new(
            game_state@.sectors.len(),
            |i: int| sector_update_of(game_state@.sectors[i]),
        ),
{
    let mut updates: Vec<SectorUpdate> = Vec::new();
    let mut i: usize = 0;
    while i < game_state.sectors.len()
        invariant
            0 <= i <= game_state.sectors.len(),
            updates@.len() == i,
            forall|k: int|
                0 <= k < i ==> (#[trigger] updates@[k])@ == sector_update_of(game_state@.sectors[k]),
        decreases game_state.sectors.len() - i,
    {
        let sector = &game_state.sectors[i];
        assert(sector@ == game_state@.sectors[i as int]);
        let update = SectorUpdate {
            id: sector.id.clone(),
            name: sector.name.clone(),
            position: sector.position,
            controlled_by: match &sector.controlled_by {
                Some(holder) => Some(holder.clone()),
                None => None,
            },
            ship_count: sector.ships_present.len(),
            has_garrison: sector.garrison_ship.is_some(),
        };
        updates.push(update);
        i += 1;
    }
    assert(update_views(updates@) =~= Seq::new(
        game_state@.sectors.len(),
        |i: int| sector_update_of(game_state@.sectors[i]),
    ));
    updates
}

/// What the server does with a message of a client.
#[derive(Debug, Clone, PartialEq, Eq)]
pub enum ClientRequest {
    /// Carry out the command and tell all listeners.
    Command(String),
    /// Tell all listeners how the player stands.
    Ping,
    /// Do nothing.
    Ignore,
}

/// What the server does with a message of the given type and content: a
/// command with content is carried out, a ping is answered, and anything
/// else is passed over.
pub open spec fn request_of(msg_type: Seq<char>, content: Option<Seq<char>>) -> Option<
    Option<Seq<char>>,
> {
    if msg_type == "command"@ {
        match content {
            Some(text) => Some(Some(text)),
            None => None,
        }
    } else if msg_type == "ping"@ {
        Some(None)
    } else {
        None
    }
}

/// Decides what the server does with a message of a client.
pub fn classify_message(msg_type: &str, content: Option<String>) -> (request: ClientRequest)
    ensures
        match request {
            ClientRequest::Command(text) => request_of(msg_type@, option_text(content)) == Some(
                Some(text@),
            ),
            ClientRequest::Ping => request_of(msg_type@, option_text(content)) == Some(
                None::<Seq<char>>,
            ),
            ClientRequest::Ignore => request_of(msg_type@, option_text(content)) is None,
        },
{
    proof {
        reveal_strlit("command");
        reveal_strlit("ping");
        assert("command"@.len() != "ping"@.len());
    }
    if same_text(msg_type, "command") {
        match content {
            Some(text) => ClientRequest::Command(text),
            None => ClientRequest::Ignore,
        }
    } else if same_text(msg_type, "ping") {
        ClientRequest::Ping
    } else {
        ClientRequest::Ignore
    }
}

} // verus!
