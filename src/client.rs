pub mod parse;
pub mod repliestypes;
pub mod ringbuffer;

use vstd::prelude::*;
use vstd::utf8::encode_utf8;

use crate::client::parse::{dispatch_line, display_view, line_effect};
use crate::client::ringbuffer::{first_occurrence, lemma_first_occurrence, occurs_at, RingBuffer};
use crate::text::{decode_lossy, lossy_text};

verus! {

/// Slots of the receive buffer of a client.
pub const BUFFER_SIZE: usize = 10240;

/// Why an identity cannot be used.
#[derive(Debug, Clone, Copy, PartialEq, Eq, Structural)]
pub enum ClientError {
    NoNickDefined,
    NoUserDefined,
    NoNameDefined,
}

impl ClientError {
    /// The message that describes the error.
    pub fn text(&self) -> (r: &'static str)
        ensures
            *self == ClientError::NoNickDefined ==> r@ == "No nick was defined"@,
            *self == ClientError::NoUserDefined ==> r@ == "No user was defined"@,
            *self == ClientError::NoNameDefined ==> r@ == "No name was defined"@,
    {
        match self {
            ClientError::NoNickDefined => "No nick was defined",
            ClientError::NoUserDefined => "No user was defined",
            ClientError::NoNameDefined => "No name was defined",
        }
    }
}

/// The identity that a client registers with: nickname, user name and real
/// name, none of them empty.
#[derive(Debug, Clone)]
pub struct UserInfo {
    nick: String,
    user: String,
    name: String,
}

/// The registration line `NICK <nick>`.
pub open spec fn nick_line(nick: Seq<char>) -> Seq<char> {
    "NICK "@ + nick
}

/// The registration line `USER <user> 0 * :<name>`.
pub open spec fn user_line(user: Seq<char>, name: Seq<char>) -> Seq<char> {
    "USER "@ + user + " 0 * :"@ + name
}

impl UserInfo {
    pub closed spec fn nick(&self) -> Seq<char> {
        self.nick@
    }

    pub closed spec fn user(&self) -> Seq<char> {
        self.user@
    }

    pub closed spec fn name(&self) -> Seq<char> {
        self.name@
    }

    /// An identity, checked in this order: nickname, user name, real name.
    pub fn new(nick: String, user: String, name: String) -> (r: Result<Self, ClientError>)
        ensures
            nick@.len() == 0 ==> r == Err::<Self, ClientError>(ClientError::NoNickDefined),
            nick@.len() > 0 && user@.len() == 0 ==> r == Err::<Self, ClientError>(
                ClientError::NoUserDefined,
            ),
            nick@.len() > 0 && user@.len() > 0 && name@.len() == 0 ==> r == Err::<
                Self,
                ClientError,
            >(ClientError::NoNameDefined),
            nick@.len() > 0 && user@.len() > 0 && name@.len() > 0 ==> (r matches Ok(u) && u.nick()
                == nick@ && u.user() == user@ && u.name() == name@),
    {
        if nick.as_str().is_empty() {
            return Err(ClientError::NoNickDefined);
        }
        if user.as_str().is_empty() {
            return Err(ClientError::NoUserDefined);
        }
        if name.as_str().is_empty() {
            return Err(ClientError::NoNameDefined);
        }
        Ok(UserInfo { nick, user, name })
    }

    fn get_user_msg(&self) -> (r: String)
        ensures
            r@ == user_line(self.user(), self.name()),
    {
        "USER ".to_owned().concat(self.user.as_str()).concat(" 0 * :").concat(self.name.as_str())
    }

    fn get_nick_msg(&self) -> (r: String)
        ensures
            r@ == nick_line(self.nick()),
    {
        "NICK ".to_owned().concat(self.nick.as_str())
    }
}

/// A channel and the users in it.
#[derive(Debug)]
pub struct Channel {
    pub name: String,
    pub topic: String,
    pub user_list: Vec<UserInfo>,
}

/// A display event: text to show, or (as `Err`) a diagnostic or an input
/// line that could not be parsed.
pub type MessageDisplay = Result<String, String>;

/// What a display event shows.
pub type DisplayView = Result<Seq<char>, Seq<char>>;

/// Why a connection could not be made.
#[derive(Debug, Clone, PartialEq, Eq)]
pub enum ConnectError {
    AlreadyConnected,
    /// The transport failed, with its message.
    Transport(String),
}

/// What a non-blocking read from the socket gave.
#[derive(Debug, Clone, PartialEq, Eq)]
pub enum ReadOutcome {
    /// That many bytes were written into the regions of `slices`.
    Data(usize),
    /// Nothing was waiting.
    WouldBlock,
    /// Any other failure, with its message.
    Failed(String),
}

/// What a non-blocking one-byte peek at the socket gave.
#[derive(Debug, Clone, Copy, PartialEq, Eq, Structural)]
pub enum PeekOutcome {
    /// That many bytes are waiting; none means the peer closed.
    Data(usize),
    /// Nothing is waiting yet.
    WouldBlock,
    /// Any other failure.
    Failed,
}

/// The bytes of an outbound line: the command and CR LF.
pub open spec fn wire(command: Seq<char>) -> Seq<u8> {
    encode_utf8(command) + seq![13u8, 10u8]
}

/// The line terminator CR LF.
pub open spec fn crlf() -> Seq<u8> {
    seq![13u8, 10u8]
}

/// The complete lines of a byte stream, without their terminators.
pub open spec fn lines_of(s: Seq<u8>) -> Seq<Seq<u8>>
    decreases s.len(),
{
    match first_occurrence(s, crlf()) {
        Some(i) => if 0 <= i && i + 2 <= s.len() {
            seq![s.take(i)] + lines_of(s.skip(i + 2))
        } else {
            seq![]
        },
        None => seq![],
    }
}

/// What follows the last complete line of a byte stream.
pub open spec fn rest_of(s: Seq<u8>) -> Seq<u8>
    decreases s.len(),
{
    match first_occurrence(s, crlf()) {
        Some(i) => if 0 <= i && i + 2 <= s.len() {
            rest_of(s.skip(i + 2))
        } else {
            s
        },
        None => s,
    }
}

/// The display events that received lines give, in order.
pub open spec fn lines_shown(lines: Seq<Seq<u8>>) -> Seq<DisplayView>
    decreases lines.len(),
{
    if lines.len() == 0 {
        seq![]
    } else {
        lines_shown(lines.drop_last()) + line_effect(lossy_text(lines.last())).0
    }
}

/// The outbound bytes that received lines call for, in order.
pub open spec fn lines_wired(lines: Seq<Seq<u8>>) -> Seq<Seq<u8>>
    decreases lines.len(),
{
    if lines.len() == 0 {
        seq![]
    } else {
        lines_wired(lines.drop_last()) + line_effect(lossy_text(lines.last())).1.map_values(
            |c: Seq<char>| wire(c),
        )
    }
}

/// The first CR LF of `a` is the first of `a + b` too.
proof fn lemma_first_crlf_extends(a: Seq<u8>, b: Seq<u8>, i: int)
    requires
        first_occurrence(a, crlf()) == Some(i),
    ensures
        first_occurrence(a + b, crlf()) == Some(i),
        0 <= i && i + 2 <= a.len(),
{
    lemma_first_occurrence(a, crlf());
    lemma_first_occurrence(a + b, crlf());
    assert((a + b).subrange(i, i + 2) =~= a.subrange(i, i + 2));
    assert forall|j: int| 0 <= j < i implies !occurs_at(a + b, crlf(), j) by {
        assert(!occurs_at(a, crlf(), j));
        assert((a + b).subrange(j, j + 2) =~= a.subrange(j, j + 2));
    }
    match first_occurrence(a + b, crlf()) {
        Some(k) => {
            if k < i {
                assert(!occurs_at(a + b, crlf(), k));
            }
            if k > i {
                assert(!occurs_at(a + b, crlf(), i));
            }
        },
        None => {
            assert(!occurs_at(a + b, crlf(), i));
        },
    }
}

/// Receiving a byte stream in two parts dispatches the same lines, in the
/// same order, as receiving it at once, and leaves the same unfinished tail.
pub proof fn lemma_split_delivery(a: Seq<u8>, b: Seq<u8>)
    ensures
        lines_of(a) + lines_of(rest_of(a) + b) == lines_of(a + b),
        rest_of(rest_of(a) + b) == rest_of(a + b),
    decreases a.len(),
{
    match first_occurrence(a, crlf()) {
        Some(i) => {
            lemma_first_crlf_extends(a, b, i);
            let tail = a.skip(i + 2);
            lemma_split_delivery(tail, b);
            assert((a + b).skip(i + 2) =~= tail + b);
            assert((a + b).take(i) =~= a.take(i));
            assert(lines_of(a) + lines_of(rest_of(a) + b) =~= seq![a.take(i)] + (lines_of(tail)
                + lines_of(rest_of(tail) + b)));
        },
        None => {
            assert(lines_of(a) + lines_of(rest_of(a) + b) =~= lines_of(a + b));
        },
    }
}

/// The display events of consecutive runs of lines follow each other.
pub proof fn lemma_lines_shown_concat(x: Seq<Seq<u8>>, y: Seq<Seq<u8>>)
    ensures
        lines_shown(x + y) == lines_shown(x) + lines_shown(y),
    decreases y.len(),
{
    if y.len() == 0 {
        assert(x + y =~= x);
        assert(lines_shown(x) + lines_shown(y) =~= lines_shown(x));
    } else {
        lemma_lines_shown_concat(x, y.drop_last());
        assert((x + y).drop_last() =~= x + y.drop_last());
        assert((x + y).last() == y.last());
        assert(lines_shown(x + y) =~= lines_shown(x) + lines_shown(y));
    }
}

/// The outbound writes of consecutive runs of lines follow each other.
pub proof fn lemma_lines_wired_concat(x: Seq<Seq<u8>>, y: Seq<Seq<u8>>)
    ensures
        lines_wired(x + y) == lines_wired(x) + lines_wired(y),
    decreases y.len(),
{
    if y.len() == 0 {
        assert(x + y =~= x);
        assert(lines_wired(x) + lines_wired(y) =~= lines_wired(x));
    } else {
        lemma_lines_wired_concat(x, y.drop_last());
        assert((x + y).drop_last() =~= x + y.drop_last());
        assert((x + y).last() == y.last());
        assert(lines_wired(x + y) =~= lines_wired(x) + lines_wired(y));
    }
}

/// Receiving a byte stream in two parts shows the same events and queues
/// the same writes, in the same order, as receiving it at once.
pub proof fn lemma_split_delivery_effects(a: Seq<u8>, b: Seq<u8>)
    ensures
        lines_shown(lines_of(a)) + lines_shown(lines_of(rest_of(a) + b)) == lines_shown(
            lines_of(a + b),
        ),
        lines_wired(lines_of(a)) + lines_wired(lines_of(rest_of(a) + b)) == lines_wired(
            lines_of(a + b),
        ),
        rest_of(rest_of(a) + b) == rest_of(a + b),
{
    lemma_split_delivery(a, b);
    lemma_lines_shown_concat(lines_of(a), lines_of(rest_of(a) + b));
    lemma_lines_wired_concat(lines_of(a), lines_of(rest_of(a) + b));
}

/// The connection and protocol state of one client.
///
/// The socket itself belongs to the caller; the client records whether one
/// is attached, buffers what it received, and queues what it has to send.
#[derive(Debug)]
pub struct Client {
    attached: bool,
    buffer: RingBuffer,
    connected: bool,
    user_info: UserInfo,
    return_lines: Vec<MessageDisplay>,
    outgoing: Vec<Vec<u8>>,
}

impl Client {
    /// A socket is attached.
    pub closed spec fn holds_socket(&self) -> bool {
        self.attached
    }

    /// The connection is taken to be up.
    pub closed spec fn live(&self) -> bool {
        self.connected
    }

    /// The receive buffer.
    pub closed spec fn ring(&self) -> RingBuffer {
        self.buffer
    }

    /// Received bytes not yet dispatched.
    pub open spec fn inbox(&self) -> Seq<u8> {
        self.ring()@
    }

    /// Display events not yet handed out.
    pub closed spec fn shown(&self) -> Seq<DisplayView> {
        self.return_lines@.map_values(|m: MessageDisplay| display_view(m))
    }

    /// Outbound writes not yet handed out, in order.
    pub closed spec fn queued(&self) -> Seq<Seq<u8>> {
        self.outgoing@.map_values(|v: Vec<u8>| v@)
    }

    pub closed spec fn identity(&self) -> UserInfo {
        self.user_info
    }

    pub closed spec fn wf(&self) -> bool {
        &&& self.buffer.wf()
        &&& self.buffer.capacity() == BUFFER_SIZE
        &&& self.connected ==> self.attached
    }

    /// A client with no socket, nothing received and nothing to send.
    pub fn new(user_info: UserInfo) -> (r: Self)
        ensures
            r.wf(),
            !r.holds_socket(),
            !r.live(),
            r.inbox() == Seq::<u8>::empty(),
            r.shown() == Seq::<DisplayView>::empty(),
            r.queued() == Seq::<Seq<u8>>::empty(),
            r.identity() == user_info,
            r.ring().free_len() == BUFFER_SIZE - 1,
    {
        let r = Client {
            attached: false,
            buffer: RingBuffer::new(BUFFER_SIZE),
            connected: false,
            user_info,
            return_lines: Vec::new(),
            outgoing: Vec::new(),
        };
        assert(r.shown() =~= Seq::<DisplayView>::empty());
        assert(r.queued() =~= Seq::<Seq<u8>>::empty());
        r
    }

    /// Whether a socket is attached.
    pub fn has_socket(&self) -> (r: bool)
        ensures
            r == self.holds_socket(),
    {
        self.attached
    }

    /// Queues `command` and CR LF for sending; dropped when no socket is
    /// attached.
    fn send_bytes(&mut self, command: &str)
        requires
            old(self).wf(),
        ensures
            final(self).wf(),
            final(self).holds_socket() == old(self).holds_socket(),
            final(self).live() == old(self).live(),
            final(self).ring() == old(self).ring(),
            final(self).identity() == old(self).identity(),
            final(self).shown() == old(self).shown(),
            final(self).queued() == if old(self).holds_socket() {
                old(self).queued().push(wire(command@))
            } else {
                old(self).queued()
            },
    {
        if self.attached {
            let mut line: Vec<u8> = Vec::new();
            line.extend_from_slice(command.as_bytes());
            line.push(13u8);
            line.push(10u8);
            let ghost before = self.queued();
            assert(line@ =~= wire(command@));
            self.outgoing.push(line);
            assert(self.queued() =~= before.push(wire(command@)));
        }
    }

    /// Shows `command`, marked `>>> `, and queues it for sending.
    fn send_string(&mut self, command: String)
        requires
            old(self).wf(),
        ensures
            final(self).wf(),
            final(self).holds_socket() == old(self).holds_socket(),
            final(self).live() == old(self).live(),
            final(self).ring() == old(self).ring(),
            final(self).identity() == old(self).identity(),
            final(self).shown() == old(self).shown().push(Ok(">>> "@ + command@)),
            final(self).queued() == if old(self).holds_socket() {
                old(self).queued().push(wire(command@))
            } else {
                old(self).queued()
            },
    {
        let ghost before = self.shown();
        self.return_lines.push(Ok(">>> ".to_owned().concat(command.as_str())));
        assert(self.shown() =~= before.push(Ok(">>> "@ + command@)));
        self.send_bytes(command.as_str());
    }

    /// Registers the identity: the nickname line, then the user line.
    fn identify(&mut self)
        requires
            old(self).wf(),
        ensures
            final(self).wf(),
            final(self).holds_socket() == old(self).holds_socket(),
            final(self).live() == old(self).live(),
            final(self).ring() == old(self).ring(),
            final(self).identity() == old(self).identity(),
            final(self).shown() == old(self).shown() + seq![
                Ok(">>> "@ + nick_line(old(self).identity().nick())),
                Ok(">>> "@ + user_line(old(self).identity().user(), old(self).identity().name())),
            ],
            final(self).queued() == if old(self).holds_socket() {
                old(self).queued() + seq![
                    wire(nick_line(old(self).identity().nick())),
                    wire(user_line(old(self).identity().user(), old(self).identity().name())),
                ]
            } else {
                old(self).queued()
            },
    {
        let nick = self.user_info.get_nick_msg();
        let user = self.user_info.get_user_msg();
        let ghost s0 = self.shown();
        let ghost q0 = self.queued();
        self.send_string(nick);
        self.send_string(user);
        assert(self.shown() =~= s0 + seq![
            Ok(">>> "@ + nick_line(self.identity().nick())),
            Ok(">>> "@ + user_line(self.identity().user(), self.identity().name())),
        ]);
        if self.attached {
            assert(self.queued() =~= q0 + seq![
                wire(nick_line(self.identity().nick())),
                wire(user_line(self.identity().user(), self.identity().name())),
            ]);
        }
    }

    /// Asks to join `#channel`.
    pub fn join(&mut self, channel: &str)
        requires
            old(self).wf(),
        ensures
            final(self).wf(),
            final(self).holds_socket() == old(self).holds_socket(),
            final(self).live() == old(self).live(),
            final(self).ring() == old(self).ring(),
            final(self).identity() == old(self).identity(),
            final(self).shown() == old(self).shown().push(Ok(">>> "@ + ("JOIN #"@ + channel@))),
            final(self).queued() == if old(self).holds_socket() {
                old(self).queued().push(wire("JOIN #"@ + channel@))
            } else {
                old(self).queued()
            },
    {
        self.send_string("JOIN #".to_owned().concat(channel));
    }

    /// Sends `msg` to the channel `#dest`.
    pub fn send_message(&mut self, dest: String, msg: String)
        requires
            old(self).wf(),
        ensures
            final(self).wf(),
            final(self).holds_socket() == old(self).holds_socket(),
            final(self).live() == old(self).live(),
            final(self).ring() == old(self).ring(),
            final(self).identity() == old(self).identity(),
            final(self).shown() == old(self).shown().push(
                Ok(">>> "@ + ("PRIVMSG #"@ + dest@ + " :"@ + msg@)),
            ),
            final(self).queued() == if old(self).holds_socket() {
                old(self).queued().push(wire("PRIVMSG #"@ + dest@ + " :"@ + msg@))
            } else {
                old(self).queued()
            },
    {
        self.send_string(
            "PRIVMSG #".to_owned().concat(dest.as_str()).concat(" :").concat(msg.as_str()),
        );
    }

    /// Whether a connection may be opened: not while a socket is attached.
    pub fn can_connect(&self) -> (r: Result<(), ConnectError>)
        ensures
            self.holds_socket() ==> r == Err::<(), ConnectError>(ConnectError::AlreadyConnected),
            !self.holds_socket() ==> r is Ok,
    {
        if self.attached {
            Err(ConnectError::AlreadyConnected)
        } else {
            Ok(())
        }
    }

    /// Takes in the outcome of opening a non-blocking socket. On success the
    /// socket is attached and the identity registration is queued at once.
    pub fn connect(&mut self, opened: Result<(), String>) -> (r: Result<(), ConnectError>)
        requires
            old(self).wf(),
        ensures
            final(self).wf(),
            old(self).holds_socket() ==> r == Err::<(), ConnectError>(
                ConnectError::AlreadyConnected,
            ) && *final(self) == *old(self),
            !old(self).holds_socket() && opened is Err ==> r == Err::<(), ConnectError>(
                ConnectError::Transport(opened->Err_0),
            ) && *final(self) == *old(self),
            !old(self).holds_socket() && opened is Ok ==> {
                let u = old(self).identity();
                &&& r is Ok
                &&& final(self).holds_socket()
                &&& final(self).live()
                &&& final(self).ring() == old(self).ring()
                &&& final(self).identity() == u
                &&& final(self).shown() == old(self).shown() + seq![
                    Ok(">>> "@ + nick_line(u.nick())),
                    Ok(">>> "@ + user_line(u.user(), u.name())),
                ]
                &&& final(self).queued() == old(self).queued() + seq![
                    wire(nick_line(u.nick())),
                    wire(user_line(u.user(), u.name())),
                ]
            },
    {
        if self.attached {
            return Err(ConnectError::AlreadyConnected);
        }
        match opened {
            Ok(()) => {
                self.connected = true;
                self.attached = true;
                self.identify();
                Ok(())
            },
            Err(e) => Err(ConnectError::Transport(e)),
        }
    }

    /// Whether the connection is up, given what a peek at the attached
    /// socket gave: data waiting, or nothing yet; not a close or an error.
    pub fn is_connected(&self, peek: PeekOutcome) -> (r: bool)
        ensures
            r == (self.holds_socket() && match peek {
                PeekOutcome::Data(n) => n > 0,
                PeekOutcome::WouldBlock => true,
                PeekOutcome::Failed => false,
            }),
    {
        if !self.attached {
            return false;
        }
        match peek {
            PeekOutcome::Data(n) => n > 0,
            PeekOutcome::WouldBlock => true,
            PeekOutcome::Failed => false,
        }
    }

    /// Detaches the socket, if any.
    pub fn disconnect(&mut self)
        requires
            old(self).wf(),
        ensures
            final(self).wf(),
            !final(self).holds_socket(),
            !final(self).live(),
            final(self).ring() == old(self).ring(),
            final(self).identity() == old(self).identity(),
            final(self).shown() == old(self).shown(),
            final(self).queued() == old(self).queued(),
    {
        self.attached = false;
        self.connected = false;
    }

    /// The free space of the receive buffer, for a scatter read.
    pub fn slices(&mut self) -> (r: (&mut [u8], &mut [u8]))
        requires
            old(self).wf(),
        ensures
            final(self).wf(),
            final(self).inbox() == old(self).inbox(),
            final(self).holds_socket() == old(self).holds_socket(),
            final(self).live() == old(self).live(),
            final(self).identity() == old(self).identity(),
            final(self).shown() == old(self).shown(),
            final(self).queued() == old(self).queued(),
            final(self).ring().write_pos() == old(self).ring().write_pos(),
            r.0@.len() == old(self).ring().first_region_len(),
            r.0@ + r.1@ == old(self).ring().free_seq(),
            final(self).ring().free_seq() == final(r.0)@ + final(r.1)@,
    {
        self.buffer.slices()
    }

    /// Hands out the queued outbound writes, oldest first.
    pub fn take_outgoing(&mut self) -> (r: Vec<Vec<u8>>)
        requires
            old(self).wf(),
        ensures
            final(self).wf(),
            r@.map_values(|v: Vec<u8>| v@) == old(self).queued(),
            final(self).queued() == Seq::<Seq<u8>>::empty(),
            final(self).holds_socket() == old(self).holds_socket(),
            final(self).live() == old(self).live(),
            final(self).ring() == old(self).ring(),
            final(self).identity() == old(self).identity(),
            final(self).shown() == old(self).shown(),
    {
        let mut r: Vec<Vec<u8>> = Vec::new();
        std::mem::swap(&mut r, &mut self.outgoing);
        assert(self.queued() =~= Seq::<Seq<u8>>::empty());
        r
    }

    /// Dispatches one received line: shows what it gives and queues the
    /// commands it calls for.
    fn try_parse_server_data(&mut self, message: String)
        requires
            old(self).wf(),
        ensures
            final(self).wf(),
            final(self).holds_socket() == old(self).holds_socket(),
            final(self).live() == old(self).live(),
            final(self).ring() == old(self).ring(),
            final(self).identity() == old(self).identity(),
            final(self).shown() == old(self).shown() + line_effect(message@).0,
            final(self).queued() == if old(self).holds_socket() {
                old(self).queued() + line_effect(message@).1.map_values(|c: Seq<char>| wire(c))
            } else {
                old(self).queued()
            },
    {
        let (mut shown, sent) = dispatch_line(message.as_str());
        let ghost s0 = self.shown();
        let ghost q0 = self.queued();
        let ghost new_shown = shown@.map_values(|m: MessageDisplay| display_view(m));
        self.return_lines.append(&mut shown);
        assert(self.shown() =~= s0 + new_shown);
        let mut i: usize = 0;
        while i < sent.len()
            invariant
                self.wf(),
                i <= sent@.len(),
                self.holds_socket() == old(self).holds_socket(),
                self.live() == old(self).live(),
                self.ring() == old(self).ring(),
                self.identity() == old(self).identity(),
                self.shown() == old(self).shown() + line_effect(message@).0,
                sent@.map_values(|s: String| s@) == line_effect(message@).1,
                self.queued() == if old(self).holds_socket() {
                    q0 + sent@.take(i as int).map_values(|s: String| wire(s@))
                } else {
                    q0
                },
            decreases sent@.len() - i,
        {
            self.send_bytes(sent[i].as_str());
            assert(sent@.take(i + 1).map_values(|s: String| wire(s@)) =~= sent@.take(
                i as int,
            ).map_values(|s: String| wire(s@)).push(wire(sent@[i as int]@)));
            i += 1;
        }
        assert(sent@.take(sent@.len() as int) =~= sent@);
        assert(sent@.map_values(|s: String| wire(s@)) =~= line_effect(message@).1.map_values(
            |c: Seq<char>| wire(c),
        ));
    }

    /// Dispatches every complete line of the receive buffer, in order; what
    /// follows the last CR LF stays for later.
    fn try_read_server_data(&mut self)
        requires
            old(self).wf(),
        ensures
            final(self).wf(),
            final(self).holds_socket() == old(self).holds_socket(),
            final(self).live() == old(self).live(),
            final(self).identity() == old(self).identity(),
            final(self).ring().write_pos() == old(self).ring().write_pos(),
            final(self).inbox() == rest_of(old(self).inbox()),
            final(self).shown() == old(self).shown() + lines_shown(lines_of(old(self).inbox())),
            final(self).queued() == if old(self).holds_socket() {
                old(self).queued() + lines_wired(lines_of(old(self).inbox()))
            } else {
                old(self).queued()
            },
    {
        let pattern: Vec<u8> = vec![13u8, 10u8];
        assert(pattern@ =~= crlf());
        let ghost start = self.inbox();
        let ghost mut done: Seq<Seq<u8>> = seq![];
        loop
            invariant
                self.wf(),
                pattern@ == crlf(),
                self.holds_socket() == old(self).holds_socket(),
                self.live() == old(self).live(),
                self.identity() == old(self).identity(),
                self.ring().write_pos() == old(self).ring().write_pos(),
                start == old(self).inbox(),
                lines_of(start) == done + lines_of(self.inbox()),
                rest_of(start) == rest_of(self.inbox()),
                self.shown() == old(self).shown() + lines_shown(done),
                self.queued() == if old(self).holds_socket() {
                    old(self).queued() + lines_wired(done)
                } else {
                    old(self).queued()
                },
            ensures
                lines_of(self.inbox()) == Seq::<Seq<u8>>::empty(),
                rest_of(self.inbox()) == self.inbox(),
            decreases self.inbox().len(),
        {
            let ghost b = self.inbox();
            proof {
                lemma_first_occurrence(b, crlf());
            }
            match self.buffer.find_first(pattern.as_slice()) {
                Some(up_to) => {
                    assert(occurs_at(b, crlf(), up_to as int));
                    // The line end found shows that the buffer is not empty.
                    let bytes = match self.buffer.consume(up_to) {
                        Some(v) => v,
                        None => {
                            assert(false);
                            break;
                        },
                    };
                    self.buffer.discard(2);
                    assert(self.inbox() =~= b.skip(up_to + 2));
                    assert(lines_of(b) == seq![b.take(up_to as int)] + lines_of(b.skip(up_to + 2)));
                    let text = decode_lossy(bytes.as_slice());
                    self.try_parse_server_data(text);
                    proof {
                        let line = b.take(up_to as int);
                        let next = done.push(line);
                        assert(next.drop_last() =~= done);
                        assert(done + lines_of(b) =~= next + lines_of(self.inbox()));
                        done = next;
                    }
                },
                None => {
                    assert(lines_of(b) =~= seq![]);
                    assert(rest_of(b) == b);
                    break;
                },
            }
        }
        assert(done + lines_of(self.inbox()) =~= done);
    }

    /// One cycle of the client, given what a read into the regions of
    /// `slices` gave (`None` when no read was made): new data is committed
    /// and its complete lines dispatched; a failed read is shown and takes
    /// the connection down. Hands out the display events gathered since the
    /// last cycle.
    pub fn process(&mut self, read: Option<ReadOutcome>) -> (r: Vec<MessageDisplay>)
        requires
            old(self).wf(),
            read matches Some(ReadOutcome::Data(n)) ==> n <= old(self).ring().free_len(),
        ensures
            final(self).wf(),
            final(self).identity() == old(self).identity(),
            final(self).shown() == Seq::<DisplayView>::empty(),
            match read {
                Some(ReadOutcome::Data(n)) if n > 0 => {
                    let b = old(self).inbox() + old(self).ring().free_seq().take(n as int);
                    &&& r@.map_values(|m: MessageDisplay| display_view(m)) == old(self).shown()
                        + lines_shown(lines_of(b))
                    &&& final(self).inbox() == rest_of(b)
                    &&& final(self).queued() == if old(self).holds_socket() {
                        old(self).queued() + lines_wired(lines_of(b))
                    } else {
                        old(self).queued()
                    }
                    &&& final(self).holds_socket() == old(self).holds_socket()
                    &&& final(self).live() == old(self).live()
                },
                Some(ReadOutcome::Failed(e)) => {
                    &&& r@.map_values(|m: MessageDisplay| display_view(m)) == old(
                        self,
                    ).shown().push(Err(e@))
                    &&& final(self).ring() == old(self).ring()
                    &&& final(self).queued() == old(self).queued()
                    &&& !final(self).holds_socket()
                    &&& !final(self).live()
                },
                _ => {
                    &&& r@.map_values(|m: MessageDisplay| display_view(m)) == old(self).shown()
                    &&& final(self).ring() == old(self).ring()
                    &&& final(self).queued() == old(self).queued()
                    &&& final(self).holds_socket() == old(self).holds_socket()
                    &&& final(self).live() == old(self).live()
                },
            },
    {
        let mut new_data = false;
        match read {
            Some(ReadOutcome::Data(n)) => {
                if n > 0 {
                    let _ = self.buffer.wrote(n);
                    new_data = true;
                }
            },
            Some(ReadOutcome::Failed(e)) => {
                let ghost s0 = self.shown();
                self.return_lines.push(Err(e));
                assert(self.shown() =~= s0.push(Err(e@)));
                self.connected = false;
                self.attached = false;
            },
            Some(ReadOutcome::WouldBlock) => {},
            None => {},
        }
        if new_data {
            self.try_read_server_data();
        }
        let mut r: Vec<MessageDisplay> = Vec::new();
        std::mem::swap(&mut r, &mut self.return_lines);
        assert(self.shown() =~= Seq::<DisplayView>::empty());
        r
    }
}

} // verus!
