//! The per-connection state machine: login, client selection, the active
//! message loop and termination.
//!
//! Every transition is a function from the session, the shared registry
//! and one event — a framed input line, a delivered text, a disconnect —
//! to the next state, with the rendered timestamp taken as an argument so
//! each function is verified for every value the clock may yield. The
//! `_now` variants stamp the line with the wall clock and fix it
//! existentially in their contracts.

use vstd::prelude::*;
use vstd::string::*;

use crate::clock::now_timestamp;
use crate::registry::{join_post, publish_post, Registry};
use crate::render::{
    chat_line, chat_line_str, joined_line, joined_line_str, left_line, left_line_str,
};
use crate::text::{
    check_command_prefix, check_name, first_token, second_token, split_two, starts_command,
    trim_end_spec, trim_end_str, trim_spec, trim_str, valid_name,
};

verus! {

/// Where a session stands in its life: the login handshake, the
/// client-type selection, the message loop, or ended.
#[derive(PartialEq, Eq, Structural, Debug)]
pub enum Phase {
    Login,
    ClientSelect,
    Active,
    Terminated,
}

/// The kind of client on the other end; only one is supported.
#[derive(PartialEq, Eq, Structural, Debug)]
pub enum ClientKind {
    Netcat,
}

/// The state of one connection.
pub struct Session {
    pub name: String,
    pub room: String,
    pub phase: Phase,
    pub client: ClientKind,
}

impl Session {
    /// A session past login carries a validated name, and an active one a
    /// non-empty room.
    pub open spec fn wf(self) -> bool {
        &&& self.phase != Phase::Login ==> valid_name(self.name@)
        &&& self.phase == Phase::Active ==> self.room@.len() > 0
    }

    /// A fresh session, waiting for a name.
    pub fn new() -> (s: Session)
        ensures
            s.phase == Phase::Login,
            s.wf(),
            s.name@.len() == 0,
    {
        Session {
            name: String::new(),
            room: String::new(),
            phase: Phase::Login,
            client: ClientKind::Netcat,
        }
    }

    /// The login step: the submitted line is trimmed of surrounding
    /// whitespace; a valid name fixes the session's identity and moves it
    /// to client selection, an invalid one changes nothing, so the caller
    /// shows the invalid-name notice and prompts again.
    pub fn submit_name(&mut self, input: &str) -> (accepted: bool)
        requires
            old(self).phase == Phase::Login,
        ensures
            final(self).wf(),
            accepted == valid_name(trim_spec(input@)),
            accepted ==> final(self).name@ == trim_spec(input@) && final(self).phase
                == Phase::ClientSelect && final(self).room == old(self).room && final(self).client
                == old(self).client,
            !accepted ==> *final(self) == *old(self),
    {
        let t = trim_str(input);
        if check_name(t) {
            self.name = String::from_str(t);
            self.phase = Phase::ClientSelect;
            true
        } else {
            false
        }
    }

    /// The client-type step: the sole supported client is chosen by the
    /// token `1` or an empty line; anything else changes nothing, so the
    /// caller prompts again. Acceptance makes the session active in the
    /// default room.
    pub fn select_client(&mut self, input: &str) -> (accepted: bool)
        requires
            old(self).phase == Phase::ClientSelect,
            old(self).wf(),
        ensures
            final(self).wf(),
            accepted == (trim_end_spec(input@) == "1"@ || trim_end_spec(input@).len() == 0),
            accepted ==> final(self).phase == Phase::Active && final(self).room@ == "general"@
                && final(self).name == old(self).name && final(self).client == ClientKind::Netcat,
            !accepted ==> *final(self) == *old(self),
    {
        let t = trim_end_str(input);
        let t_owned = String::from_str(t);
        let one = String::from_str("1");
        if t_owned == one || t.unicode_len() == 0 {
            self.room = String::from_str("general");
            self.phase = Phase::Active;
            self.client = ClientKind::Netcat;
            proof {
                reveal_strlit("general");
            }
            true
        } else {
            false
        }
    }
}

/// What the active loop asks the caller to do with one input line.
pub enum InputAction {
    /// The line was rendered and published to the current room; the
    /// session will see it back through its subscription.
    Posted,
    /// The session switched rooms; deliveries now come through this
    /// fresh receiver.
    Switched(tokio::sync::broadcast::Receiver<String>),
    /// An unrecognized command: show the not-found notice to this client
    /// alone.
    Notice,
}

/// A recognized room-switch command: first token `/join`, non-empty
/// second token.
pub open spec fn is_join_command(l: Seq<char>) -> bool {
    first_token(l) == "/join"@ && second_token(l).len() > 0
}

/// Entering a room, as one transition: the room is joined (created on
/// first join) and the join announcement is then appended and published.
pub open spec fn enter_post(
    pre: Registry,
    post: Registry,
    room: Seq<char>,
    ts: Seq<char>,
    who: Seq<char>,
) -> bool {
    exists|mid: Registry|
        #[trigger] join_post(pre, mid, room) && publish_post(
            mid,
            post,
            room,
            joined_line(ts, who),
        )
}

/// A room switch, as one transition: the leave announcement goes to the
/// old room strictly first, then the new room is joined, then the join
/// announcement goes to the new room.
pub open spec fn switch_post(
    pre: Registry,
    post: Registry,
    from: Seq<char>,
    to: Seq<char>,
    ts: Seq<char>,
    who: Seq<char>,
) -> bool {
    exists|mid1: Registry, mid2: Registry|
        publish_post(pre, mid1, from, left_line(ts, who)) && #[trigger] join_post(mid1, mid2, to)
            && publish_post(mid2, post, to, joined_line(ts, who))
}

/// What one active-loop input line does. A plain line is rendered with
/// the timestamp and the session's name and published to the current
/// room; `/join <room>` performs the switch; any other command changes
/// nothing and only asks for the notice.
pub open spec fn input_post(
    rpre: Registry,
    rpost: Registry,
    spre: Session,
    spost: Session,
    l: Seq<char>,
    ts: Seq<char>,
    act: InputAction,
) -> bool {
    &&& spost.phase == Phase::Active
    &&& spost.name == spre.name
    &&& spost.client == spre.client
    &&& if !starts_command(l) {
        &&& act is Posted
        &&& spost == spre
        &&& publish_post(rpre, rpost, spre.room@, chat_line(ts, spre.name@, trim_end_spec(l)))
    } else if is_join_command(trim_end_spec(l)) {
        &&& act is Switched
        &&& spost.room@ == second_token(trim_end_spec(l))
        &&& switch_post(rpre, rpost, spre.room@, second_token(trim_end_spec(l)), ts, spre.name@)
    } else {
        &&& act is Notice
        &&& spost == spre
        &&& rpost == rpre
    }
}

/// The terminal transition: the peer is gone, the leave announcement is
/// appended and published, and the session accepts no further events.
pub open spec fn disconnect_post(
    rpre: Registry,
    rpost: Registry,
    spre: Session,
    spost: Session,
    ts: Seq<char>,
) -> bool {
    &&& spost.phase == Phase::Terminated
    &&& spost.name == spre.name
    &&& spost.room == spre.room
    &&& spost.client == spre.client
    &&& publish_post(rpre, rpost, spre.room@, left_line(ts, spre.name@))
}

/// Joins the session's current room and announces it there.
pub fn enter_room(reg: &mut Registry, sess: &Session, ts: &str) -> (rx: tokio::sync::broadcast::Receiver<String>)
    requires
        old(reg).wf(),
        sess.phase == Phase::Active,
        sess.wf(),
    ensures
        final(reg).wf(),
        enter_post(*old(reg), *final(reg), sess.room@, ts@, sess.name@),
{
    let rx = reg.join(sess.room.as_str());
    let ghost mid = *reg;
    let line = joined_line_str(ts, sess.name.as_str());
    reg.publish(sess.room.as_str(), line);
    proof {
        assert(join_post(*old(reg), mid, sess.room@) && publish_post(
            mid,
            *reg,
            sess.room@,
            joined_line(ts@, sess.name@),
        ));
    }
    rx
}

/// Handles one framed input line of an active session.
pub fn handle_input(reg: &mut Registry, sess: &mut Session, line: &str, ts: &str) -> (act:
    InputAction)
    requires
        old(reg).wf(),
        old(sess).phase == Phase::Active,
        old(sess).wf(),
    ensures
        final(reg).wf(),
        final(sess).wf(),
        input_post(*old(reg), *final(reg), *old(sess), *final(sess), line@, ts@, act),
{
    if !check_command_prefix(line) {
        let t = trim_end_str(line);
        let rendered = chat_line_str(ts, sess.name.as_str(), t);
        reg.publish(sess.room.as_str(), rendered);
        InputAction::Posted
    } else {
        let t = trim_end_str(line);
        let (c0, c1) = split_two(t);
        let join_word = String::from_str("/join");
        if c0 == join_word && c1.as_str().unicode_len() > 0 {
            let leave = left_line_str(ts, sess.name.as_str());
            reg.publish(sess.room.as_str(), leave);
            let ghost mid1 = *reg;
            let rx = reg.join(c1.as_str());
            let ghost mid2 = *reg;
            let announce = joined_line_str(ts, sess.name.as_str());
            reg.publish(c1.as_str(), announce);
            sess.room = c1;
            proof {
                assert(publish_post(
                    *old(reg),
                    mid1,
                    old(sess).room@,
                    left_line(ts@, old(sess).name@),
                ) && join_post(mid1, mid2, sess.room@) && publish_post(
                    mid2,
                    *reg,
                    sess.room@,
                    joined_line(ts@, old(sess).name@),
                ));
            }
            InputAction::Switched(rx)
        } else {
            InputAction::Notice
        }
    }
}

/// Handles the disconnect signal of an active session.
pub fn handle_disconnect(reg: &mut Registry, sess: &mut Session, ts: &str)
    requires
        old(reg).wf(),
        old(sess).phase == Phase::Active,
        old(sess).wf(),
    ensures
        final(reg).wf(),
        final(sess).wf(),
        disconnect_post(*old(reg), *final(reg), *old(sess), *final(sess), ts@),
{
    let leave = left_line_str(ts, sess.name.as_str());
    reg.publish(sess.room.as_str(), leave);
    sess.phase = Phase::Terminated;
}

/// As `enter_room`, stamped with the wall clock.
pub fn enter_room_now(reg: &mut Registry, sess: &Session) -> (rx: tokio::sync::broadcast::Receiver<
    String,
>)
    requires
        old(reg).wf(),
        sess.phase == Phase::Active,
        sess.wf(),
    ensures
        final(reg).wf(),
        exists|ts: Seq<char>|
            #[trigger] enter_post(*old(reg), *final(reg), sess.room@, ts, sess.name@),
{
    let ts = now_timestamp();
    enter_room(reg, sess, ts.as_str())
}

/// As `handle_input`, stamped with the wall clock.
pub fn handle_input_now(reg: &mut Registry, sess: &mut Session, line: &str) -> (act: InputAction)
    requires
        old(reg).wf(),
        old(sess).phase == Phase::Active,
        old(sess).wf(),
    ensures
        final(reg).wf(),
        final(sess).wf(),
        exists|ts: Seq<char>|
            #[trigger] input_post(
                *old(reg),
                *final(reg),
                *old(sess),
                *final(sess),
                line@,
                ts,
                act,
            ),
{
    let ts = now_timestamp();
    handle_input(reg, sess, line, ts.as_str())
}

/// As `handle_disconnect`, stamped with the wall clock.
pub fn handle_disconnect_now(reg: &mut Registry, sess: &mut Session)
    requires
        old(reg).wf(),
        old(sess).phase == Phase::Active,
        old(sess).wf(),
    ensures
        final(reg).wf(),
        final(sess).wf(),
        exists|ts: Seq<char>|
            #[trigger] disconnect_post(*old(reg), *final(reg), *old(sess), *final(sess), ts),
{
    let ts = now_timestamp();
    handle_disconnect(reg, sess, ts.as_str())
}

/// Law: no invalid name reaches the active state — an active session's
/// name passed validation at login.
pub proof fn lemma_active_name_valid(s: Session)
    requires
        s.wf(),
        s.phase == Phase::Active,
    ensures
        valid_name(s.name@),
{
}

/// Law: a room switch frames the move. The leave line enters the old
/// room's transcript strictly before the join line enters the new one:
/// the transition passes through a state in which the old room already
/// ends with the leave line while the new room's transcript is untouched,
/// and afterwards each room's transcript has grown by exactly its one
/// announcement.
pub proof fn lemma_switch_frames(
    pre: Registry,
    post: Registry,
    from: Seq<char>,
    to: Seq<char>,
    ts: Seq<char>,
    who: Seq<char>,
)
    requires
        switch_post(pre, post, from, to, ts, who),
        pre.has_room(from),
        from != to,
    ensures
        post.lines(from) == pre.lines(from).push(left_line(ts, who)),
        post.lines(to) == (if pre.has_room(to) {
            pre.lines(to)
        } else {
            Seq::<Seq<char>>::empty()
        }).push(joined_line(ts, who)),
        exists|mid: Registry|
            #![auto]
            mid.lines(from) == pre.lines(from).push(left_line(ts, who)) && mid.has_room(to)
                == pre.has_room(to) && (pre.has_room(to) ==> mid.lines(to) == pre.lines(to)),
{
    let (mid1, mid2) = choose|mid1: Registry, mid2: Registry|
        publish_post(pre, mid1, from, left_line(ts, who)) && #[trigger] join_post(mid1, mid2, to)
            && publish_post(mid2, post, to, joined_line(ts, who));
    assert(mid1.lines(from) == pre.lines(from).push(left_line(ts, who)));
    assert(mid1.has_room(from));
    assert(mid2.lines(from) == mid1.lines(from));
    assert(mid2.has_room(to));
    assert(post.lines(from) == mid2.lines(from));
    assert(mid2.lines(to) == if pre.has_room(to) {
        pre.lines(to)
    } else {
        Seq::<Seq<char>>::empty()
    });
    assert(post.lines(to) == mid2.lines(to).push(joined_line(ts, who)));
}

} // verus!
