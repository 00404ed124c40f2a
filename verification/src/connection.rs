//! The wire-level vocabulary of the game's line-oriented text protocol, and
//! the connection machinery built on it: newline-delimited frames, the
//! decision of whether a command waits for a response, and the errors a
//! connection can report.

use vstd::prelude::*;

verus! {

use crate::util::{cp437_char_of, cp437_encodable, char_to_cp437, Cp437String};

pub mod commands;
pub mod queued;

// MARK: Identifiers and keys

/// A block type, as the protocol numbers them.
#[derive(Debug, Clone, Copy, PartialEq, Eq, PartialOrd, Ord, Hash)]
pub struct Tile(pub u8);

/// Extra per-block state, such as growth stage or orientation.
#[derive(Debug, Clone, Copy, Default, PartialEq, Eq, PartialOrd, Ord, Hash)]
pub struct TileData(pub u8);

/// An entity type as numbered by the Raspberry Juice and Raspberry Jam
/// server extensions.
#[derive(Debug, Clone, Copy, PartialEq, Eq, PartialOrd, Ord, Hash)]
pub struct JavaEntityType(pub i32);

/// An entity type as numbered by the MCPI Addons extension.
#[derive(Debug, Clone, Copy, PartialEq, Eq, PartialOrd, Ord, Hash)]
pub struct MCPIExtrasEntityType(pub i32);

/// The color of a sheep.
#[derive(Debug, Clone, Copy, PartialEq, Eq, PartialOrd, Ord, Hash)]
pub struct SheepColor(pub i32);

/// A world dimension understood by the Raspberry Jam extension.
#[derive(Debug, Clone, Copy, PartialEq, Eq, PartialOrd, Ord, Hash)]
pub struct Dimension(pub i32);

/// The identifier of an entity in the game world.
#[derive(Debug, Clone, Copy, PartialEq, Eq, PartialOrd, Ord, Hash)]
pub struct EntityId(pub i32);

// MARK: Strings on the wire

/// A string slice holding no LF character, so it can stand inside one
/// protocol line without ending it early.
#[derive(Debug, Default, Clone, Copy, PartialEq, Eq, PartialOrd, Ord, Hash)]
pub struct ApiStr<'a>(pub &'a str);

/// The error returned when a string offered as an [`ApiStr`] holds an LF
/// character.
#[derive(Debug, Clone, Copy, PartialEq, Eq)]
pub struct NewlineStrError;

impl<'a> ApiStr<'a> {
    /// Accepts the string iff it holds no LF character.
    pub fn new(inner: &'a str) -> (r: Result<ApiStr<'a>, NewlineStrError>)
        ensures
            match r {
                Ok(a) => a.0@ == inner@ && !inner@.contains('\n'),
                Err(_) => inner@.contains('\n'),
            },
    {
        let n = inner.unicode_len();
        let mut i: usize = 0;
        while i < n
            invariant
                n == inner@.len(),
                i <= n,
                forall|j: int| 0 <= j < i ==> inner@[j] != '\n',
            decreases n - i,
        {
            if inner.get_char(i) == '\n' {
                return Err(NewlineStrError);
            }
            i += 1;
        }
        Ok(ApiStr(inner))
    }

    /// The string itself, as an owned value.
    pub fn to_string(&self) -> (r: String)
        ensures
            r@ == self.0@,
    {
        String::from_str(self.0)
    }
}

/// A key naming a per-player setting.
#[derive(Debug, Default, Clone, Copy, PartialEq, Eq, PartialOrd, Ord, Hash)]
pub struct PlayerSettingKey<'a>(pub ApiStr<'a>);

/// A key naming a per-world setting.
#[derive(Debug, Default, Clone, Copy, PartialEq, Eq, PartialOrd, Ord, Hash)]
pub struct WorldSettingKey<'a>(pub ApiStr<'a>);

/// A key naming an event-reporting setting (Raspberry Jam extension).
#[derive(Debug, Default, Clone, Copy, PartialEq, Eq, PartialOrd, Ord, Hash)]
pub struct EventsSettingKey<'a>(pub ApiStr<'a>);

/// A key that the MCPI Addons extension can press and release.
#[derive(Debug, Default, Clone, Copy, PartialEq, Eq, PartialOrd, Ord, Hash)]
pub struct MCPIExtrasKey<'a>(pub ApiStr<'a>);

/// A particle name understood by the MCPI Addons extension.
#[derive(Debug, Default, Clone, Copy, PartialEq, Eq, PartialOrd, Ord, Hash)]
pub struct MCPIExtrasParticle<'a>(pub ApiStr<'a>);

/// A particle name understood by the Raspberry Jam extension.
#[derive(Debug, Default, Clone, Copy, PartialEq, Eq, PartialOrd, Ord, Hash)]
pub struct RaspberryJamParticle<'a>(pub ApiStr<'a>);

/// The error returned when a string cannot become a [`ChatString`].
#[derive(Debug, Clone, Copy, PartialEq, Eq)]
pub enum ChatStringError {
    /// The string holds an LF character.
    Newline,
    /// Some character has no code in the game's code page.
    CP437,
}

/// A code-page string holding no LF byte, fit for the body of a chat line.
#[derive(Debug, Default, Clone, PartialEq, Eq, PartialOrd, Ord, Hash)]
pub struct ChatString(Cp437String);

impl View for ChatString {
    type V = Seq<u8>;

    closed spec fn view(&self) -> Seq<u8> {
        self.0.0@
    }
}

impl ChatString {
    /// Encodes the string, refusing LF characters and characters without a
    /// code.
    pub fn from_str(s: &str) -> (r: Result<ChatString, ChatStringError>)
        ensures
            match r {
                Ok(cs) => {
                    &&& !s@.contains('\n')
                    &&& cs@.len() == s@.len()
                    &&& forall|j: int|
                        0 <= j < s@.len() ==> #[trigger] cp437_char_of(cs@[j]) == s@[j]
                },
                Err(ChatStringError::Newline) => s@.contains('\n'),
                Err(ChatStringError::CP437) => !s@.contains('\n') && exists|j: int|
                    0 <= j < s@.len() && !cp437_encodable(s@[j]),
            },
    {
        let checked = match ApiStr::new(s) {
            Ok(a) => a,
            Err(_) => {
                return Err(ChatStringError::Newline);
            },
        };
        match Cp437String::from_utf8(checked.0) {
            Some(cs) => Ok(ChatString(cs)),
            None => Err(ChatStringError::CP437),
        }
    }

    /// Encodes the string; LF and characters without a code become the
    /// question mark, code 63.
    pub fn from_str_lossy(inner: &str) -> (r: ChatString)
        ensures
            r@.len() == inner@.len(),
            forall|j: int| 0 <= j < inner@.len() ==> if inner@[j] == '\n' {
                #[trigger] r@[j] == 63
            } else if cp437_encodable(inner@[j]) {
                cp437_char_of(r@[j]) == inner@[j]
            } else {
                r@[j] == 63
            },
            !r@.contains(10),
    {
        let n = inner.unicode_len();
        let mut out: Vec<u8> = Vec::new();
        let mut i: usize = 0;
        while i < n
            invariant
                n == inner@.len(),
                i <= n,
                out@.len() == i,
                forall|j: int| 0 <= j < i ==> if inner@[j] == '\n' {
                    #[trigger] out@[j] == 63
                } else if cp437_encodable(inner@[j]) {
                    cp437_char_of(out@[j]) == inner@[j]
                } else {
                    out@[j] == 63
                },
                !out@.contains(10),
            decreases n - i,
        {
            let c = inner.get_char(i);
            if c == '\n' {
                out.push(63);
            } else {
                match char_to_cp437(c) {
                    Some(b) => {
                        proof {
                            // code 10 shows LF, and this character is not LF
                            assert(cp437_char_of(10u8) == '\n');
                        }
                        out.push(b);
                    },
                    None => {
                        out.push(63);
                    },
                }
            }
            i += 1;
            proof {
                if out@.contains(10) {
                    let k = choose|k: int| 0 <= k < out@.len() && out@[k] == 10;
                    assert(out@[k] == 10);
                }
            }
        }
        ChatString(Cp437String(out))
    }

    /// Decodes the code-page bytes back into readable text.
    pub fn to_utf8(&self) -> (r: String)
        ensures
            r@.len() == self@.len(),
            forall|j: int| 0 <= j < self@.len() ==> #[trigger] r@[j] == cp437_char_of(self@[j]),
    {
        self.0.to_string()
    }

    /// The raw code-page bytes of the message.
    pub fn as_bytes(&self) -> (r: &Vec<u8>)
        ensures
            r@ == self@,
    {
        &self.0.0
    }
}

// MARK: Connection options and errors

/// Options that change how a connection treats responses.
#[derive(Debug, Clone, Copy, PartialEq, Eq, Hash)]
pub struct ConnectOptions {
    /// How many milliseconds to wait for a response before giving up;
    /// `None` waits without bound.
    pub response_timeout: Option<u64>,
    /// Whether to wait for a response even after commands that normally
    /// have none, so that a late `Fail` line is seen rather than missed.
    pub always_wait_for_response: bool,
}

impl Default for ConnectOptions {
    /// One second of patience, and no waiting after silent commands.
    fn default() -> (r: Self)
        ensures
            r.response_timeout == Some(1000u64),
            !r.always_wait_for_response,
    {
        ConnectOptions { response_timeout: Some(1000), always_wait_for_response: false }
    }
}

/// What can go wrong when talking to a game server.
#[derive(Debug, Clone, Copy, PartialEq, Eq)]
pub enum ConnectionError {
    /// The transport failed while sending or receiving.
    Transport,
    /// No response arrived within the configured timeout.
    Timeout,
    /// The server closed the connection.
    ConnectionClosed,
    /// A response was not text the caller can use.
    MalformedResponse,
    /// The request queue was already shut down.
    QueueClosed,
    /// A non-blocking submission met a full queue.
    QueueFull,
    /// Waiting forever was demanded for a command that may never be
    /// answered: `always_wait_for_response` with no `response_timeout` on a
    /// command that expects no response.
    ConfigurationError,
}

// MARK: Frames

// A frame is one newline-delimited unit of the protocol: the bytes strictly
// before a LF, with the LF stripped.  The functions below say exactly which
// frames a byte sequence holds and what stays buffered.

/// The index of the first LF in `s`, or `s.len()` when there is none.
pub open spec fn first_newline(s: Seq<u8>) -> nat
    decreases s.len(),
{
    if s.len() == 0 {
        0
    } else if s[0] == 10 {
        0
    } else {
        1 + first_newline(s.drop_first())
    }
}

/// What `first_newline` finds: no LF before it, and an LF at it when it is
/// inside the sequence.
pub proof fn lemma_first_newline(s: Seq<u8>)
    ensures
        first_newline(s) <= s.len(),
        forall|j: int| 0 <= j < first_newline(s) ==> s[j] != 10,
        first_newline(s) < s.len() ==> s[first_newline(s) as int] == 10,
    decreases s.len(),
{
    if s.len() == 0 {
    } else if s[0] == 10 {
    } else {
        lemma_first_newline(s.drop_first());
        assert forall|j: int| 0 <= j < first_newline(s) implies s[j] != 10 by {
            if j > 0 {
                assert(s.drop_first()[j - 1] == s[j]);
            }
        }
        if first_newline(s) < s.len() {
            assert(s.drop_first()[first_newline(s.drop_first()) as int] == s[first_newline(s) as int]);
        }
    }
}

/// An LF at `i` with none before it is the first one.
pub proof fn lemma_first_newline_is(s: Seq<u8>, i: int)
    requires
        0 <= i < s.len(),
        s[i] == 10,
        forall|j: int| 0 <= j < i ==> s[j] != 10,
    ensures
        first_newline(s) == i,
{
    lemma_first_newline(s);
}

/// The frames that `s` holds, in order: for each LF, the bytes strictly
/// between it and the previous LF.
pub open spec fn frames_of(s: Seq<u8>) -> Seq<Seq<u8>>
    decreases s.len(),
{
    let i = first_newline(s);
    if i >= s.len() {
        Seq::empty()
    } else {
        seq![s.take(i as int)] + frames_of(s.skip(i + 1 as int))
    }
}

/// The bytes of `s` after its last LF: what stays buffered once every
/// complete frame is taken.
pub open spec fn residue_of(s: Seq<u8>) -> Seq<u8>
    decreases s.len(),
{
    let i = first_newline(s);
    if i >= s.len() {
        s
    } else {
        residue_of(s.skip(i + 1 as int))
    }
}

/// How many LF bytes `s` holds.
pub open spec fn newline_count(s: Seq<u8>) -> nat
    decreases s.len(),
{
    if s.len() == 0 {
        0
    } else {
        (if s[0] == 10 { 1nat } else { 0nat }) + newline_count(s.drop_first())
    }
}

proof fn lemma_newline_count_zero(s: Seq<u8>)
    requires
        forall|j: int| 0 <= j < s.len() ==> s[j] != 10,
    ensures
        newline_count(s) == 0,
    decreases s.len(),
{
    if s.len() > 0 {
        assert forall|j: int| 0 <= j < s.drop_first().len() implies s.drop_first()[j] != 10 by {
            assert(s.drop_first()[j] == s[j + 1]);
        }
        lemma_newline_count_zero(s.drop_first());
    }
}

proof fn lemma_newline_count_concat(a: Seq<u8>, b: Seq<u8>)
    ensures
        newline_count(a + b) == newline_count(a) + newline_count(b),
    decreases a.len(),
{
    if a.len() == 0 {
        assert(a + b =~= b);
    } else {
        assert((a + b).drop_first() =~= a.drop_first() + b);
        lemma_newline_count_concat(a.drop_first(), b);
    }
}

/// A byte sequence with k LF bytes holds exactly k frames.
pub proof fn lemma_frame_count(s: Seq<u8>)
    ensures
        frames_of(s).len() == newline_count(s),
    decreases s.len(),
{
    lemma_first_newline(s);
    let i = first_newline(s);
    if i >= s.len() {
        lemma_newline_count_zero(s);
    } else {
        lemma_frame_count(s.skip(i + 1 as int));
        assert(s =~= s.take(i as int) + (seq![10u8] + s.skip(i + 1 as int)));
        lemma_newline_count_concat(s.take(i as int), seq![10u8] + s.skip(i + 1 as int));
        lemma_newline_count_concat(seq![10u8], s.skip(i + 1 as int));
        lemma_newline_count_zero(s.take(i as int));
        assert(newline_count(seq![10u8]) == 1) by {
            let nl = seq![10u8];
            assert(nl[0] == 10);
            assert(nl.drop_first() =~= Seq::<u8>::empty());
            assert(newline_count(Seq::<u8>::empty()) == 0);
        }
    }
}

/// No frame holds an LF.
pub proof fn lemma_frames_no_newline(s: Seq<u8>)
    ensures
        forall|k: int| 0 <= k < frames_of(s).len() ==> !(#[trigger] frames_of(s)[k]).contains(10),
    decreases s.len(),
{
    lemma_first_newline(s);
    let i = first_newline(s);
    if i < s.len() {
        lemma_frames_no_newline(s.skip(i + 1 as int));
        assert forall|k: int| 0 <= k < frames_of(s).len() implies !(#[trigger] frames_of(s)[k]).contains(10) by {
            if k == 0 {
                let f = s.take(i as int);
                if f.contains(10) {
                    let j = choose|j: int| 0 <= j < f.len() && f[j] == 10;
                    assert(s[j] == 10);
                }
            } else {
                assert(frames_of(s)[k] == frames_of(s.skip(i + 1 as int))[k - 1]);
            }
        }
    }
}

/// The frames of `s`, each followed by an LF, then the residue: that is `s`
/// itself again.
pub open spec fn rejoin(frames: Seq<Seq<u8>>, residue: Seq<u8>) -> Seq<u8>
    decreases frames.len(),
{
    if frames.len() == 0 {
        residue
    } else {
        frames[0] + seq![10u8] + rejoin(frames.drop_first(), residue)
    }
}

/// Frame extraction loses, merges and reorders nothing: putting the LF back
/// after each frame and appending the residue rebuilds the input.
pub proof fn lemma_frames_rejoin(s: Seq<u8>)
    ensures
        rejoin(frames_of(s), residue_of(s)) == s,
    decreases s.len(),
{
    lemma_first_newline(s);
    let i = first_newline(s);
    if i < s.len() {
        lemma_frames_rejoin(s.skip(i + 1 as int));
        let frames = frames_of(s);
        assert(frames.drop_first() =~= frames_of(s.skip(i + 1 as int)));
        assert(rejoin(frames, residue_of(s)) =~= s);
    }
}

/// Feeding bytes in two parts extracts the same frames as feeding them at
/// once: what the first part leaves buffered is simply continued.
pub proof fn lemma_frames_incremental(s1: Seq<u8>, s2: Seq<u8>)
    ensures
        frames_of(s1 + s2) == frames_of(s1) + frames_of(residue_of(s1) + s2),
        residue_of(s1 + s2) == residue_of(residue_of(s1) + s2),
    decreases s1.len(),
{
    lemma_first_newline(s1);
    let i = first_newline(s1);
    if i >= s1.len() {
        assert(frames_of(s1) + frames_of(residue_of(s1) + s2) =~= frames_of(s1 + s2));
    } else {
        lemma_first_newline_is(s1 + s2, i as int);
        assert((s1 + s2).take(i as int) =~= s1.take(i as int));
        assert((s1 + s2).skip(i + 1 as int) =~= s1.skip(i + 1 as int) + s2);
        lemma_frames_incremental(s1.skip(i + 1 as int), s2);
        assert(frames_of(s1 + s2) =~= frames_of(s1) + frames_of(residue_of(s1) + s2));
    }
}

/// Buffers inbound bytes and hands out newline-delimited frames, terminator
/// stripped, keeping what follows the last LF for later.
#[derive(Debug)]
pub struct FrameBuffer {
    buf: Vec<u8>,
}

impl View for FrameBuffer {
    type V = Seq<u8>;

    closed spec fn view(&self) -> Seq<u8> {
        self.buf@
    }
}

impl FrameBuffer {
    /// An empty buffer.
    pub fn new() -> (r: FrameBuffer)
        ensures
            r@ == Seq::<u8>::empty(),
    {
        FrameBuffer { buf: Vec::new() }
    }

    /// Appends bytes read from the stream.
    pub fn feed(&mut self, data: &[u8])
        ensures
            final(self)@ == old(self)@ + data@,
    {
        crate::connection::commands::push_bytes(&mut self.buf, data);
    }

    /// Takes the first complete frame out of the buffer, if one is there:
    /// the bytes before the first LF, which leave the buffer together with
    /// the LF itself.
    pub fn try_next_frame(&mut self) -> (r: Option<Vec<u8>>)
        ensures
            match r {
                Some(frame) => {
                    &&& first_newline(old(self)@) < old(self)@.len()
                    &&& frame@ == old(self)@.take(first_newline(old(self)@) as int)
                    &&& final(self)@ == old(self)@.skip(first_newline(old(self)@) + 1 as int)
                },
                None => {
                    &&& final(self)@ == old(self)@
                    &&& first_newline(old(self)@) == old(self)@.len()
                },
            },
    {
        let n = self.buf.len();
        let mut i: usize = 0;
        while i < n
            invariant
                n == self.buf@.len(),
                i <= n,
                self.buf@ == old(self)@,
                forall|j: int| 0 <= j < i ==> self.buf@[j] != 10,
            decreases n - i,
        {
            if self.buf[i] == 10 {
                proof {
                    lemma_first_newline_is(self.buf@, i as int);
                }
                let mut frame: Vec<u8> = Vec::new();
                let mut k: usize = 0;
                while k < i
                    invariant
                        k <= i < self.buf@.len(),
                        self.buf@ == old(self)@,
                        frame@ == self.buf@.subrange(0, k as int),
                    decreases i - k,
                {
                    frame.push(self.buf[k]);
                    k += 1;
                    proof {
                        assert(frame@ =~= self.buf@.subrange(0, k as int));
                    }
                }
                let mut rest: Vec<u8> = Vec::new();
                let mut m: usize = i + 1;
                while m < n
                    invariant
                        i + 1 <= m <= n == self.buf@.len(),
                        self.buf@ == old(self)@,
                        rest@ == self.buf@.subrange(i + 1, m as int),
                    decreases n - m,
                {
                    rest.push(self.buf[m]);
                    m += 1;
                    proof {
                        assert(rest@ =~= self.buf@.subrange(i + 1, m as int));
                    }
                }
                self.buf = rest;
                return Some(frame);
            }
            i += 1;
        }
        proof {
            lemma_first_newline(self.buf@);
            if first_newline(self.buf@) < self.buf@.len() {
                assert(self.buf@[first_newline(self.buf@) as int] == 10);
            }
        }
        None
    }

    /// Takes every complete frame out of the buffer, in order; the bytes
    /// after the last LF stay buffered.
    pub fn extract_frames(&mut self) -> (r: Vec<Vec<u8>>)
        ensures
            r@.map_values(|f: Vec<u8>| f@) == frames_of(old(self)@),
            final(self)@ == residue_of(old(self)@),
    {
        let mut out: Vec<Vec<u8>> = Vec::new();
        loop
            invariant
                frames_of(old(self)@) == out@.map_values(|f: Vec<u8>| f@) + frames_of(self@),
                residue_of(old(self)@) == residue_of(self@),
            decreases self@.len(),
        {
            let ghost prev = self@;
            match self.try_next_frame() {
                Some(frame) => {
                    proof {
                        assert(frames_of(prev) =~= seq![frame@] + frames_of(self@));
                    }
                    out.push(frame);
                    proof {
                        assert(out@.map_values(|f: Vec<u8>| f@) =~= out@.drop_last().map_values(
                            |f: Vec<u8>| f@,
                        ).push(frame@));
                        assert(frames_of(old(self)@) =~= out@.map_values(|f: Vec<u8>| f@)
                            + frames_of(self@));
                    }
                },
                None => {
                    proof {
                        assert(out@.map_values(|f: Vec<u8>| f@) + frames_of(self@) =~= out@.map_values(
                            |f: Vec<u8>| f@,
                        ));
                    }
                    return out;
                },
            }
        }
    }

    /// How many bytes wait in the buffer.
    pub fn len(&self) -> (r: usize)
        ensures
            r == self@.len(),
    {
        self.buf.len()
    }
}

// MARK: Deciding whether to wait

/// What a send does after its bytes are written: the response policy that
/// the options and the command's own nature dictate.
#[derive(Debug, Clone, Copy, PartialEq, Eq)]
pub enum SendPlan {
    /// Reply with an empty response at once; read nothing.
    NoWait,
    /// Wait for the next frame, up to this many milliseconds.
    WaitWithTimeout(u64),
    /// Wait for the next frame with no bound.
    WaitUnbounded,
    /// Refuse eagerly: waiting without bound was demanded for a command
    /// that may never be answered.
    Refuse,
}

/// The response policy for one command under the given options.
pub open spec fn spec_send_plan(options: ConnectOptions, has_response: bool) -> SendPlan {
    if !has_response && !options.always_wait_for_response {
        SendPlan::NoWait
    } else {
        match options.response_timeout {
            Option::Some(ms) => SendPlan::WaitWithTimeout(ms),
            Option::None => if has_response {
                SendPlan::WaitUnbounded
            } else {
                SendPlan::Refuse
            },
        }
    }
}

/// Decides the response policy for one command.
///
/// A command that expects no response, under options that do not demand
/// waiting, is answered with an empty string and no read at all.
pub fn send_plan(options: &ConnectOptions, has_response: bool) -> (p: SendPlan)
    ensures
        p == spec_send_plan(*options, has_response),
        !has_response && !options.always_wait_for_response ==> p == SendPlan::NoWait,
{
    if !has_response && !options.always_wait_for_response {
        SendPlan::NoWait
    } else {
        match options.response_timeout {
            Option::Some(ms) => SendPlan::WaitWithTimeout(ms),
            Option::None => if has_response {
                SendPlan::WaitUnbounded
            } else {
                SendPlan::Refuse
            },
        }
    }
}

/// What one attempt to read the next response frame came back with.
#[derive(Debug, Clone, PartialEq, Eq)]
pub enum ReadOutcome {
    /// The next frame arrived, terminator already stripped.
    Frame(Vec<u8>),
    /// The wait reached its bound first.
    TimedOut,
    /// The stream ended: a read returned no bytes.
    Closed,
    /// The transport itself failed.
    TransportFailed,
}

/// The result handed to the caller whose command waited for a response and
/// saw the given outcome.  A frame passes through verbatim: a server
/// `Fail` line is a response like any other, and only the caller knows
/// whether it is meaningful.
pub fn complete_send(outcome: ReadOutcome) -> (r: Result<Vec<u8>, ConnectionError>)
    ensures
        match outcome {
            ReadOutcome::Frame(f) => r == Ok::<Vec<u8>, ConnectionError>(f),
            ReadOutcome::TimedOut => r == Err::<Vec<u8>, ConnectionError>(ConnectionError::Timeout),
            ReadOutcome::Closed => r == Err::<Vec<u8>, ConnectionError>(
                ConnectionError::ConnectionClosed,
            ),
            ReadOutcome::TransportFailed => r == Err::<Vec<u8>, ConnectionError>(
                ConnectionError::Transport,
            ),
        },
{
    match outcome {
        ReadOutcome::Frame(f) => Ok(f),
        ReadOutcome::TimedOut => Err(ConnectionError::Timeout),
        ReadOutcome::Closed => Err(ConnectionError::ConnectionClosed),
        ReadOutcome::TransportFailed => Err(ConnectionError::Transport),
    }
}

// MARK: Tiles with names, entity variants

/// The decimal digits of `n`, as characters, most significant first.
pub open spec fn dec_chars(n: nat) -> Seq<char>
    decreases n,
{
    if n < 10 {
        seq![((48 + n) as u8) as char]
    } else {
        dec_chars(n / 10).push(((48 + n % 10) as u8) as char)
    }
}

/// Renders `n` in decimal.
fn dec_string(n: u64) -> (r: String)
    ensures
        r@ == dec_chars(n as nat),
    decreases n,
{
    if n < 10 {
        let mut s = String::new();
        s.push((48 + n) as u8 as char);
        s
    } else {
        let mut s = dec_string(n / 10);
        s.push((48 + n % 10) as u8 as char);
        s
    }
}

/// The display name of each block type the protocol knows; unnamed codes
/// show their number.
pub open spec fn tile_name(b: u8) -> Seq<char> {
        if b == 0 { "Air"@
        } else if b == 1 { "Stone"@
        } else if b == 2 { "Grass Block"@
        } else if b == 3 { "Dirt"@
        } else if b == 4 { "Cobblestone"@
        } else if b == 5 { "Planks"@
        } else if b == 6 { "Sapling"@
        } else if b == 7 { "Bedrock"@
        } else if b == 8 { "Water"@
        } else if b == 9 { "Still Water"@
        } else if b == 10 { "Lava"@
        } else if b == 11 { "Still Lava"@
        } else if b == 12 { "Sand"@
        } else if b == 13 { "Gravel"@
        } else if b == 14 { "Gold Ore"@
        } else if b == 15 { "Iron Ore"@
        } else if b == 16 { "Coal Ore"@
        } else if b == 17 { "Log"@
        } else if b == 18 { "Leaves"@
        } else if b == 20 { "Glass"@
        } else if b == 21 { "Lapis Ore"@
        } else if b == 22 { "Lapis Block"@
        } else if b == 24 { "Sandstone"@
        } else if b == 26 { "Bed"@
        } else if b == 30 { "Cobweb"@
        } else if b == 31 { "Bush"@
        } else if b == 35 { "Wool"@
        } else if b == 37 { "Dandelion"@
        } else if b == 38 { "Blue Rose"@
        } else if b == 39 { "Brown Mushroom"@
        } else if b == 40 { "Red Mushroom"@
        } else if b == 41 { "Gold Block"@
        } else if b == 42 { "Iron Block"@
        } else if b == 43 { "Double Slab"@
        } else if b == 44 { "Slab"@
        } else if b == 45 { "Bricks"@
        } else if b == 46 { "TNT"@
        } else if b == 47 { "Bookshelf"@
        } else if b == 48 { "Mossy Cobblestone"@
        } else if b == 49 { "Obsidian"@
        } else if b == 50 { "Torch"@
        } else if b == 51 { "Fire"@
        } else if b == 53 { "Wooden Stairs"@
        } else if b == 54 { "Chest"@
        } else if b == 56 { "Diamond Ore"@
        } else if b == 57 { "Diamond Block"@
        } else if b == 58 { "Crafting Table"@
        } else if b == 59 { "Wheat"@
        } else if b == 60 { "Farmland"@
        } else if b == 61 { "Furnace"@
        } else if b == 62 { "Lit Furnace"@
        } else if b == 63 { "Sign"@
        } else if b == 64 { "Wooden Door"@
        } else if b == 65 { "Ladder"@
        } else if b == 67 { "Cobblestone Stairs"@
        } else if b == 68 { "Wall Sign"@
        } else if b == 71 { "Iron Door"@
        } else if b == 73 { "Redstone Ore"@
        } else if b == 74 { "Lit Redstone Ore"@
        } else if b == 78 { "Snow"@
        } else if b == 79 { "Ice"@
        } else if b == 80 { "Snow Block"@
        } else if b == 81 { "Cactus"@
        } else if b == 82 { "Clay"@
        } else if b == 83 { "Sugarcane"@
        } else if b == 85 { "Fence"@
        } else if b == 112 { "Nether Bricks"@
        } else if b == 89 { "Glowstone"@
        } else if b == 95 { "Invisible Bedrock"@
        } else if b == 96 { "Trapdoor"@
        } else if b == 98 { "Stone Bricks"@
        } else if b == 102 { "Glass Pane"@
        } else if b == 103 { "Melon"@
        } else if b == 105 { "Melon Stem"@
        } else if b == 107 { "Fence Gate"@
        } else if b == 108 { "Brick Stairs"@
        } else if b == 109 { "Stone Brick Stairs"@
        } else if b == 114 { "Nether Brick Stairs"@
        } else if b == 128 { "Sandstone Stairs"@
        } else if b == 155 { "Quartz"@
        } else if b == 156 { "Quartz Stairs"@
        } else if b == 245 { "Stonecutter"@
        } else if b == 246 { "Glowing Obsidian"@
        } else if b == 247 { "Nether Reactor Core"@
        } else if b == 248 { "Update Block"@
        } else if b == 249 { "Ateupd Block"@
        } else if b == 253 { "Grass Block Carried"@
        } else if b == 254 { "Leaves Carried"@
        } else if b == 255 { "Stone 1"@
        } else { "Unknown Block ("@ + dec_chars(b as nat) + ")"@
        }
}

impl Tile {
    /// A displayable wrapper for the block type.
    pub fn display(&self) -> (r: TileDisplay)
        ensures
            r.0 == *self,
    {
        TileDisplay(*self)
    }
}

/// Shows a block type under its display name.
#[derive(Debug, Clone, Copy, PartialEq, Eq, PartialOrd, Ord, Hash)]
pub struct TileDisplay(pub Tile);

impl TileDisplay {
    /// The block's display name.
    pub fn to_string(&self) -> (r: String)
        ensures
            r@ == tile_name(self.0.0),
    {
        let b = self.0.0;
        if b == 0 { String::from_str("Air")
        } else if b == 1 { String::from_str("Stone")
        } else if b == 2 { String::from_str("Grass Block")
        } else if b == 3 { String::from_str("Dirt")
        } else if b == 4 { String::from_str("Cobblestone")
        } else if b == 5 { String::from_str("Planks")
        } else if b == 6 { String::from_str("Sapling")
        } else if b == 7 { String::from_str("Bedrock")
        } else if b == 8 { String::from_str("Water")
        } else if b == 9 { String::from_str("Still Water")
        } else if b == 10 { String::from_str("Lava")
        } else if b == 11 { String::from_str("Still Lava")
        } else if b == 12 { String::from_str("Sand")
        } else if b == 13 { String::from_str("Gravel")
        } else if b == 14 { String::from_str("Gold Ore")
        } else if b == 15 { String::from_str("Iron Ore")
        } else if b == 16 { String::from_str("Coal Ore")
        } else if b == 17 { String::from_str("Log")
        } else if b == 18 { String::from_str("Leaves")
        } else if b == 20 { String::from_str("Glass")
        } else if b == 21 { String::from_str("Lapis Ore")
        } else if b == 22 { String::from_str("Lapis Block")
        } else if b == 24 { String::from_str("Sandstone")
        } else if b == 26 { String::from_str("Bed")
        } else if b == 30 { String::from_str("Cobweb")
        } else if b == 31 { String::from_str("Bush")
        } else if b == 35 { String::from_str("Wool")
        } else if b == 37 { String::from_str("Dandelion")
        } else if b == 38 { String::from_str("Blue Rose")
        } else if b == 39 { String::from_str("Brown Mushroom")
        } else if b == 40 { String::from_str("Red Mushroom")
        } else if b == 41 { String::from_str("Gold Block")
        } else if b == 42 { String::from_str("Iron Block")
        } else if b == 43 { String::from_str("Double Slab")
        } else if b == 44 { String::from_str("Slab")
        } else if b == 45 { String::from_str("Bricks")
        } else if b == 46 { String::from_str("TNT")
        } else if b == 47 { String::from_str("Bookshelf")
        } else if b == 48 { String::from_str("Mossy Cobblestone")
        } else if b == 49 { String::from_str("Obsidian")
        } else if b == 50 { String::from_str("Torch")
        } else if b == 51 { String::from_str("Fire")
        } else if b == 53 { String::from_str("Wooden Stairs")
        } else if b == 54 { String::from_str("Chest")
        } else if b == 56 { String::from_str("Diamond Ore")
        } else if b == 57 { String::from_str("Diamond Block")
        } else if b == 58 { String::from_str("Crafting Table")
        } else if b == 59 { String::from_str("Wheat")
        } else if b == 60 { String::from_str("Farmland")
        } else if b == 61 { String::from_str("Furnace")
        } else if b == 62 { String::from_str("Lit Furnace")
        } else if b == 63 { String::from_str("Sign")
        } else if b == 64 { String::from_str("Wooden Door")
        } else if b == 65 { String::from_str("Ladder")
        } else if b == 67 { String::from_str("Cobblestone Stairs")
        } else if b == 68 { String::from_str("Wall Sign")
        } else if b == 71 { String::from_str("Iron Door")
        } else if b == 73 { String::from_str("Redstone Ore")
        } else if b == 74 { String::from_str("Lit Redstone Ore")
        } else if b == 78 { String::from_str("Snow")
        } else if b == 79 { String::from_str("Ice")
        } else if b == 80 { String::from_str("Snow Block")
        } else if b == 81 { String::from_str("Cactus")
        } else if b == 82 { String::from_str("Clay")
        } else if b == 83 { String::from_str("Sugarcane")
        } else if b == 85 { String::from_str("Fence")
        } else if b == 112 { String::from_str("Nether Bricks")
        } else if b == 89 { String::from_str("Glowstone")
        } else if b == 95 { String::from_str("Invisible Bedrock")
        } else if b == 96 { String::from_str("Trapdoor")
        } else if b == 98 { String::from_str("Stone Bricks")
        } else if b == 102 { String::from_str("Glass Pane")
        } else if b == 103 { String::from_str("Melon")
        } else if b == 105 { String::from_str("Melon Stem")
        } else if b == 107 { String::from_str("Fence Gate")
        } else if b == 108 { String::from_str("Brick Stairs")
        } else if b == 109 { String::from_str("Stone Brick Stairs")
        } else if b == 114 { String::from_str("Nether Brick Stairs")
        } else if b == 128 { String::from_str("Sandstone Stairs")
        } else if b == 155 { String::from_str("Quartz")
        } else if b == 156 { String::from_str("Quartz Stairs")
        } else if b == 245 { String::from_str("Stonecutter")
        } else if b == 246 { String::from_str("Glowing Obsidian")
        } else if b == 247 { String::from_str("Nether Reactor Core")
        } else if b == 248 { String::from_str("Update Block")
        } else if b == 249 { String::from_str("Ateupd Block")
        } else if b == 253 { String::from_str("Grass Block Carried")
        } else if b == 254 { String::from_str("Leaves Carried")
        } else if b == 255 { String::from_str("Stone 1")
        } else {
            let mut s = String::from_str("Unknown Block (");
            let digits = dec_string(b as u64);
            s.append(digits.as_str());
            s.append(")");
            proof {
                assert(s@ =~= tile_name(b));
            }
            s
        }
    }
}

/// An entity type of the MCPI Addons extension together with its data
/// value: the color of a sheep, the tile of a dropped item, the fuse of a
/// primed TNT.
#[derive(Debug, Clone, Copy, PartialEq, Eq, Hash)]
pub struct MCPIExtrasEntityVariant {
    pub entity: MCPIExtrasEntityType,
    pub value: i32,
}

impl MCPIExtrasEntityVariant {
    /// An entity type with the given data value.
    pub fn new(entity: MCPIExtrasEntityType, value: i32) -> (r: Self)
        ensures
            r.entity == entity,
            r.value == value,
    {
        Self { entity, value }
    }

    /// A sheep of the given color.
    pub fn new_sheep(color: SheepColor) -> (r: Self)
        ensures
            r.entity == MCPIExtrasEntityType(13),
            r.value == color.0,
    {
        Self { entity: MCPIExtrasEntityType(13), value: color.0 }
    }

    /// A dropped item of the given tile.
    pub fn new_item(tile: Tile) -> (r: Self)
        ensures
            r.entity == MCPIExtrasEntityType(64),
            r.value == tile.0 as i32,
    {
        Self { entity: MCPIExtrasEntityType(64), value: tile.0 as i32 }
    }

    /// A falling tile of the given tile.
    pub fn new_falling_tile(tile: Tile) -> (r: Self)
        ensures
            r.entity == MCPIExtrasEntityType(66),
            r.value == tile.0 as i32,
    {
        Self { entity: MCPIExtrasEntityType(66), value: tile.0 as i32 }
    }

    /// An arrow, critical or not.
    pub fn new_arrow(critical: bool) -> (r: Self)
        ensures
            r.entity == MCPIExtrasEntityType(80),
            r.value == if critical { 1int } else { 0int },
    {
        Self { entity: MCPIExtrasEntityType(80), value: if critical { 1 } else { 0 } }
    }

    /// A primed TNT that explodes after the given number of game ticks.
    pub fn tnt_from_ticks(ticks: i32) -> (r: Self)
        ensures
            r.entity == MCPIExtrasEntityType(65),
            r.value == ticks,
    {
        Self { entity: MCPIExtrasEntityType(65), value: ticks }
    }

    /// A primed TNT that explodes after the given fuse, at twenty game
    /// ticks per second; a fuse too long for the tick counter saturates.
    pub fn new_tnt(fuse_millis: u64) -> (r: Self)
        ensures
            r.entity == MCPIExtrasEntityType(65),
            r.value == if fuse_millis as int / 50 <= i32::MAX as int {
                fuse_millis as int / 50
            } else {
                i32::MAX as int
            },
    {
        let t = fuse_millis / 50;
        let ticks: i32 = if t > 2147483647u64 {
            2147483647i32
        } else {
            t as i32
        };
        Self::tnt_from_ticks(ticks)
    }
}

} // verus!
