use crate::engine::game::held_by;
use crate::engine::game::GameState;
use crate::engine::game::GameView;
use crate::engine::player::PlayerView;
use crate::text::append_decimal;
use crate::text::decimal;
use crate::text::is_space;
use crate::text::is_space_char;
use vstd::prelude::*;
use vstd::string::StrSliceExecFns;
use vstd::string::StringExecFns;

verus! {

/// How many stock events there are.
pub const STOCK_EVENTS: u32 = 8;

/// The stock event of a turn: one for each of the first turns, in a fixed
/// order, and nothing once all have been told.
pub open spec fn stock_event(turn_number: int) -> Seq<char> {
    if turn_number == 1 {
        "The Martian Senate debates new trade regulations affecting the asteroid belt."@
    } else if turn_number == 2 {
        "Solar flares from Sol temporarily disrupt long-range communications."@
    } else if turn_number == 3 {
        "Rumors spread of ancient technology discovered in the Jovian moons."@
    } else if turn_number == 4 {
        "Pirates have been spotted near the outer rim territories."@
    } else if turn_number == 5 {
        "The Venusian nobility hosts a grand celebration, distracting local defenses."@
    } else if turn_number == 6 {
        "A prototype warp gate activates briefly near Saturn before shutting down."@
    } else if turn_number == 7 {
        "Asteroid miners report unusual energy readings from deep space."@
    } else if turn_number == 8 {
        "The Earth Coalition announces new military funding initiatives."@
    } else {
        Seq::empty()
    }
}

/// The event that ends a turn: nothing where events are switched off, the
/// text of the narrative service where it gave one, else the stock event of
/// the turn.
pub open spec fn chosen_event(disabled: bool, remote: Option<Seq<char>>, turn_number: int) -> Seq<
    char,
> {
    if disabled {
        Seq::empty()
    } else {
        match remote {
            Some(text) => text,
            None => stock_event(turn_number),
        }
    }
}

/// The stock event of a turn.
pub fn generate_stub_event(turn_number: u32) -> (event: String)
    requires
        turn_number >= 1,
    ensures
        event@ == stock_event(turn_number as int),
{
    if turn_number > STOCK_EVENTS {
        return String::new();
    }
    let index = (turn_number - 1) % STOCK_EVENTS;
    let text = if index == 0 {
        "The Martian Senate debates new trade regulations affecting the asteroid belt."
    } else if index == 1 {
        "Solar flares from Sol temporarily disrupt long-range communications."
    } else if index == 2 {
        "Rumors spread of ancient technology discovered in the Jovian moons."
    } else if index == 3 {
        "Pirates have been spotted near the outer rim territories."
    } else if index == 4 {
        "The Venusian nobility hosts a grand celebration, distracting local defenses."
    } else if index == 5 {
        "A prototype warp gate activates briefly near Saturn before shutting down."
    } else if index == 6 {
        "Asteroid miners report unusual energy readings from deep space."
    } else {
        "The Earth Coalition announces new military funding initiatives."
    };
    String::from_str(text)
}

/// Chooses the event that ends a turn. `disabled` says whether events are
/// switched off; `remote` is what the narrative service gave, if it could
/// be reached and gave a usable text.
pub fn generate_event(disabled: bool, remote: Option<String>, turn_number: u32) -> (event: String)
    requires
        turn_number >= 1,
    ensures
        event@ == chosen_event(
            disabled,
            match remote {
                Some(text) => Some(text@),
                None => None,
            },
            turn_number as int,
        ),
{
    if disabled {
        return String::new();
    }
    match remote {
        Some(text) => text,
        None => generate_stub_event(turn_number),
    }
}

/// What becomes of a line that the narrative service wrote, once trimmed: a
/// line that is empty or of a hundred bytes or more is not used; any other
/// gets a full stop.
pub fn accept_remote_line(cleaned: &str) -> (event: Option<String>)
    ensures
        match event {
            Some(text) => 0 < cleaned@.len() && cleaned.len() < 100 && text@
                == cleaned@ + "."@,
            None => cleaned@.len() == 0 || cleaned.len() >= 100,
        },
{
    if !cleaned.is_empty() && cleaned.len() < 100 {
        let mut text = String::from_str(cleaned);
        text.append(".");
        Some(text)
    } else {
        None
    }
}

/// How many characters at the start of a text are white space.
pub open spec fn leading_spaces(s: Seq<char>) -> nat
    decreases s.len(),
{
    if s.len() > 0 && is_space(s[0]) {
        1 + leading_spaces(s.drop_first())
    } else {
        0
    }
}

/// How many characters at the end of a text are white space.
pub open spec fn trailing_spaces(s: Seq<char>) -> nat
    decreases s.len(),
{
    if s.len() > 0 && is_space(s.last()) {
        1 + trailing_spaces(s.drop_last())
    } else {
        0
    }
}

/// How many characters at the end of a text are full stops.
pub open spec fn trailing_stops(s: Seq<char>) -> nat
    decreases s.len(),
{
    if s.len() > 0 && s.last() == '.' {
        1 + trailing_stops(s.drop_last())
    } else {
        0
    }
}

/// How many characters stand before the first line break of a text.
pub open spec fn first_line_length(s: Seq<char>) -> nat
    decreases s.len(),
{
    if s.len() > 0 && s[0] != '\n' {
        1 + first_line_length(s.drop_first())
    } else {
        0
    }
}

/// A text without the white space at its start and end.
pub open spec fn trimmed(s: Seq<char>) -> Seq<char> {
    if leading_spaces(s) == s.len() {
        Seq::empty()
    } else {
        s.subrange(leading_spaces(s) as int, s.len() - trailing_spaces(s))
    }
}

/// What is kept of the text that the narrative service wrote: its first
/// line, without white space around it and without the full stops that end
/// it.
pub open spec fn cleaned(s: Seq<char>) -> Seq<char> {
    let line = trimmed(s).subrange(0, first_line_length(trimmed(s)) as int);
    let bare = line.subrange(0, line.len() - trailing_stops(line));
    trimmed(bare)
}

proof fn lemma_counts_fit(s: Seq<char>)
    ensures
        leading_spaces(s) <= s.len(),
        trailing_spaces(s) <= s.len(),
        trailing_stops(s) <= s.len(),
        first_line_length(s) <= s.len(),
    decreases s.len(),
{
    if s.len() > 0 {
        lemma_counts_fit(s.drop_first());
        lemma_counts_fit(s.drop_last());
    }
}

/// The leading white space ends at a character that is none.
proof fn lemma_leading_stops(s: Seq<char>)
    ensures
        leading_spaces(s) <= s.len(),
        leading_spaces(s) < s.len() ==> !is_space(s[leading_spaces(s) as int]),
    decreases s.len(),
{
    if s.len() > 0 && is_space(s[0]) {
        lemma_leading_stops(s.drop_first());
    }
}

/// Dropping a last character that is white space leaves the leading white
/// space as it was, unless the text is white space throughout.
proof fn lemma_leading_of_prefix(s: Seq<char>)
    requires
        s.len() > 0,
        leading_spaces(s) < s.len(),
    ensures
        leading_spaces(s.drop_last()) == leading_spaces(s),
    decreases s.len(),
{
    lemma_leading_stops(s);
    if is_space(s[0]) {
        lemma_leading_of_prefix(s.drop_first());
        assert(s.drop_last().drop_first() =~= s.drop_first().drop_last());
    }
}

/// In a text that is not white space throughout, the white space at the
/// start and at the end do not overlap.
proof fn lemma_spaces_apart(s: Seq<char>)
    requires
        leading_spaces(s) < s.len(),
    ensures
        leading_spaces(s) + trailing_spaces(s) <= s.len(),
    decreases s.len(),
{
    lemma_leading_stops(s);
    if is_space(s.last()) {
        lemma_leading_of_prefix(s);
        lemma_spaces_apart(s.drop_last());
    }
}

fn count_leading_spaces(text: &str) -> (count: usize)
    ensures
        count == leading_spaces(text@),
{
    let n = text.unicode_len();
    let mut i: usize = 0;
    assert(text@.subrange(0, n as int) =~= text@);
    while i < n && is_space_char(text.get_char(i))
        invariant
            n == text@.len(),
            0 <= i <= n,
            leading_spaces(text@) == i + leading_spaces(text@.subrange(i as int, n as int)),
        decreases n - i,
    {
        proof {
            let rest = text@.subrange(i as int, n as int);
            assert(rest[0] == text@[i as int]);
            assert(rest.drop_first() =~= text@.subrange(i + 1, n as int));
        }
        i += 1;
    }
    proof {
        let rest = text@.subrange(i as int, n as int);
        if i < n {
            assert(rest[0] == text@[i as int]);
        }
    }
    i
}

fn count_trailing_spaces(text: &str) -> (count: usize)
    ensures
        count == trailing_spaces(text@),
{
    let n = text.unicode_len();
    let mut kept: usize = n;
    assert(text@.subrange(0, n as int) =~= text@);
    while kept > 0 && is_space_char(text.get_char(kept - 1))
        invariant
            n == text@.len(),
            0 <= kept <= n,
            trailing_spaces(text@) == (n - kept) + trailing_spaces(text@.subrange(0, kept as int)),
        decreases kept,
    {
        proof {
            let rest = text@.subrange(0, kept as int);
            assert(rest.last() == text@[kept - 1]);
            assert(rest.drop_last() =~= text@.subrange(0, kept - 1));
        }
        kept -= 1;
    }
    proof {
        let rest = text@.subrange(0, kept as int);
        if kept > 0 {
            assert(rest.last() == text@[kept - 1]);
        }
    }
    n - kept
}

fn count_trailing_stops(text: &str) -> (count: usize)
    ensures
        count == trailing_stops(text@),
{
    let n = text.unicode_len();
    let mut kept: usize = n;
    assert(text@.subrange(0, n as int) =~= text@);
    while kept > 0 && text.get_char(kept - 1) == '.'
        invariant
            n == text@.len(),
            0 <= kept <= n,
            trailing_stops(text@) == (n - kept) + trailing_stops(text@.subrange(0, kept as int)),
        decreases kept,
    {
        proof {
            let rest = text@.subrange(0, kept as int);
            assert(rest.last() == text@[kept - 1]);
            assert(rest.drop_last() =~= text@.subrange(0, kept - 1));
        }
        kept -= 1;
    }
    proof {
        let rest = text@.subrange(0, kept as int);
        if kept > 0 {
            assert(rest.last() == text@[kept - 1]);
        }
    }
    n - kept
}

fn measure_first_line(text: &str) -> (length: usize)
    ensures
        length == first_line_length(text@),
{
    let n = text.unicode_len();
    let mut i: usize = 0;
    assert(text@.subrange(0, n as int) =~= text@);
    while i < n && text.get_char(i) != '\n'
        invariant
            n == text@.len(),
            0 <= i <= n,
            first_line_length(text@) == i + first_line_length(text@.subrange(i as int, n as int)),
        decreases n - i,
    {
        proof {
            let rest = text@.subrange(i as int, n as int);
            assert(rest[0] == text@[i as int]);
            assert(rest.drop_first() =~= text@.subrange(i + 1, n as int));
        }
        i += 1;
    }
    proof {
        let rest = text@.subrange(i as int, n as int);
        if i < n {
            assert(rest[0] == text@[i as int]);
        }
    }
    i
}

/// Removes the white space at the start and end of a text.
pub fn trim_text(text: &str) -> (kept: String)
    ensures
        kept@ == trimmed(text@),
{
    let n = text.unicode_len();
    let start = count_leading_spaces(text);
    if start == n {
        return String::new();
    }
    proof {
        lemma_counts_fit(text@);
        lemma_spaces_apart(text@);
    }
    let end = n - count_trailing_spaces(text);
    String::from_str(text.substring_char(start, end))
}

/// Keeps of the text that the narrative service wrote its first line,
/// without white space around it and without the full stops that end it.
pub fn clean_remote_text(text: &str) -> (kept: String)
    ensures
        kept@ == cleaned(text@),
{
    let whole = trim_text(text);
    let line_length = measure_first_line(whole.as_str());
    proof {
        lemma_counts_fit(whole@);
    }
    let line = String::from_str(whole.as_str().substring_char(0, line_length));
    let stops = count_trailing_stops(line.as_str());
    proof {
        lemma_counts_fit(line@);
    }
    let length = line.as_str().unicode_len();
    let bare = String::from_str(line.as_str().substring_char(0, length - stops));
    trim_text(bare.as_str())
}

/// How a prompt describes a player: rank, name, level, ships and sectors.
pub open spec fn standing_text(player: PlayerView, sectors: nat) -> Seq<char> {
    player.rank + " "@ + player.name + " (Level "@ + decimal(player.level as nat) + ", "@
        + decimal(player.fleet.total_ships()) + " ships) controls "@ + decimal(sectors)
        + " sectors."@
}

/// The last line of the chronicle, or a stand-in for an empty chronicle.
pub open spec fn recent_event(state: GameView) -> Seq<char> {
    if state.event_log.len() > 0 {
        state.event_log.last()
    } else {
        "The campaign has begun"@
    }
}

/// What the narrative service is asked: to tell of one event that fits the
/// state of the game.
pub open spec fn prompt_text(state: GameView) -> Seq<char> {
    "You are a narrator for Interstellar Command, a space strategy game inspired by Red Rising. Generate ONE brief atmospheric event (under 20 words) based on this situation:\nTurn "@
        + decimal(state.turn_number as nat) + ": "@ + standing_text(
        state.players[0],
        held_by(state.sectors, 0),
    ) + " "@ + standing_text(state.players[1], held_by(state.sectors, 1)) + "\nRecent: "@
        + recent_event(state)
        + "\nCreate flavor text about the solar empire, NOT game mechanics. Be dramatic and evocative."@
}

fn standing_line(state: &GameState, player_id: u8) -> (line: String)
    requires
        player_id < 2,
    ensures
        line@ == standing_text(state@.players[player_id as int], held_by(state@.sectors, player_id)),
{
    let player = &state.players[player_id as usize];
    let ships = player.fleet.scouts as u64 + player.fleet.frigates as u64
        + player.fleet.destroyers as u64 + player.fleet.command_centers as u64;
    let mut line = String::from_str(player.rank.as_str());
    line.append(" ");
    line.append(player.name.as_str());
    line.append(" (Level ");
    append_decimal(&mut line, player.level as u64);
    line.append(", ");
    append_decimal(&mut line, ships);
    line.append(" ships) controls ");
    append_decimal(&mut line, state.sectors_controlled(player_id) as u64);
    line.append(" sectors.");
    line
}

/// Writes the prompt that asks the narrative service for an event.
pub fn narrative_prompt(state: &GameState) -> (prompt: String)
    ensures
        prompt@ == prompt_text(state@),
{
    let mut prompt = String::from_str(
        "You are a narrator for Interstellar Command, a space strategy game inspired by Red Rising. Generate ONE brief atmospheric event (under 20 words) based on this situation:\nTurn ",
    );
    append_decimal(&mut prompt, state.turn_number as u64);
    prompt.append(": ");
    prompt.append(standing_line(state, 0).as_str());
    prompt.append(" ");
    prompt.append(standing_line(state, 1).as_str());
    prompt.append("\nRecent: ");
    if state.event_log.len() > 0 {
        assert(state@.event_log.last() == state.event_log@[state.event_log.len() - 1]@);
        prompt.append(state.event_log[state.event_log.len() - 1].as_str());
    } else {
        prompt.append("The campaign has begun");
    }
    prompt.append(
        "\nCreate flavor text about the solar empire, NOT game mechanics. Be dramatic and evocative.",
    );
    prompt
}

} // verus!
