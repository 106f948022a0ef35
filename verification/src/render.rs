//! Exact rendering of everything the server writes: transcript lines,
//! prompts and notices. Each builder's contract pins the characters of
//! the result, so the protocol text is part of the specification.

use vstd::prelude::*;
use vstd::string::*;

verus! {

/// The rendered join announcement: highlighted
/// `[<timestamp>][<name>] joined!` with a trailing newline.
pub open spec fn joined_line(ts: Seq<char>, who: Seq<char>) -> Seq<char> {
    "\x1b[32m["@ + ts + "]["@ + who + "] joined!\x1b[0m\n"@
}

/// The rendered leave announcement: highlighted
/// `[<timestamp>][<name>] Left` with a trailing newline.
pub open spec fn left_line(ts: Seq<char>, who: Seq<char>) -> Seq<char> {
    "\x1b[31m["@ + ts + "]["@ + who + "] Left\x1b[0m\n"@
}

/// The rendered chat message: `[<timestamp>][<name>]: <text>` with a
/// trailing newline.
pub open spec fn chat_line(ts: Seq<char>, who: Seq<char>, text: Seq<char>) -> Seq<char> {
    "["@ + ts + "]["@ + who + "]: "@ + text + "\n"@
}

/// What a connected client is shown for one delivered text: screen-clear,
/// the text, a blank line and the message prompt for its current room.
pub open spec fn delivery_text(room: Seq<char>, msg: Seq<char>) -> Seq<char> {
    "\x1b[2J\x1b[H\n"@ + msg + "\n#["@ + room + "] Type your message: "@
}

/// The greeting and name prompt of the login handshake.
pub open spec fn welcome_text() -> Seq<char> {
    "[Server] Welcome to Peach!\nThis is an anonymous chat server, use '/join <channel>' to join a channel\nPlease enter your name: "@
}

/// The notice shown for a name that fails validation.
pub open spec fn invalid_name_text() -> Seq<char> {
    "\x1b[2J\x1b[H\n[Server] Name you entered is invalid!\n"@
}

/// The client-type menu of the login handshake.
pub open spec fn client_menu_text() -> Seq<char> {
    "\x1b[2J\x1b[H\n[Server] Which client are you using?\n\t1). Netcat\nSelect (default=1): "@
}

/// The notice sent back for an unrecognized command.
pub open spec fn not_found_text() -> Seq<char> {
    "[Server] Command not found!\n"@
}

/// Builds `joined_line`.
pub fn joined_line_str(ts: &str, who: &str) -> (r: String)
    ensures
        r@ == joined_line(ts@, who@),
{
    let mut r = String::from_str("\x1b[32m[");
    r.append(ts);
    r.append("][");
    r.append(who);
    r.append("] joined!\x1b[0m\n");
    proof {
        assert(r@ =~= joined_line(ts@, who@));
    }
    r
}

/// Builds `left_line`.
pub fn left_line_str(ts: &str, who: &str) -> (r: String)
    ensures
        r@ == left_line(ts@, who@),
{
    let mut r = String::from_str("\x1b[31m[");
    r.append(ts);
    r.append("][");
    r.append(who);
    r.append("] Left\x1b[0m\n");
    proof {
        assert(r@ =~= left_line(ts@, who@));
    }
    r
}

/// Builds `chat_line`.
pub fn chat_line_str(ts: &str, who: &str, text: &str) -> (r: String)
    ensures
        r@ == chat_line(ts@, who@, text@),
{
    let mut r = String::from_str("[");
    r.append(ts);
    r.append("][");
    r.append(who);
    r.append("]: ");
    r.append(text);
    r.append("\n");
    proof {
        assert(r@ =~= chat_line(ts@, who@, text@));
    }
    r
}

/// Builds `delivery_text`.
pub fn render_delivery(room: &str, msg: &str) -> (r: String)
    ensures
        r@ == delivery_text(room@, msg@),
{
    let mut r = String::from_str("\x1b[2J\x1b[H\n");
    r.append(msg);
    r.append("\n#[");
    r.append(room);
    r.append("] Type your message: ");
    proof {
        assert(r@ =~= delivery_text(room@, msg@));
    }
    r
}

/// Builds `welcome_text`.
pub fn welcome_prompt() -> (r: String)
    ensures
        r@ == welcome_text(),
{
    String::from_str(
        "[Server] Welcome to Peach!\nThis is an anonymous chat server, use '/join <channel>' to join a channel\nPlease enter your name: ",
    )
}

/// Builds `invalid_name_text`.
pub fn invalid_name_notice() -> (r: String)
    ensures
        r@ == invalid_name_text(),
{
    String::from_str("\x1b[2J\x1b[H\n[Server] Name you entered is invalid!\n")
}

/// Builds `client_menu_text`.
pub fn client_menu_prompt() -> (r: String)
    ensures
        r@ == client_menu_text(),
{
    String::from_str("\x1b[2J\x1b[H\n[Server] Which client are you using?\n\t1). Netcat\nSelect (default=1): ")
}

/// Builds `not_found_text`.
pub fn not_found_notice() -> (r: String)
    ensures
        r@ == not_found_text(),
{
    String::from_str("[Server] Command not found!\n")
}

} // verus!
