//! The supervisor/target protocol over the shared region, modelled and
//! verified on an owned copy of the region's state.
//!
//! The region holds a server-status word, a client-status word, a payload
//! length and the payload bytes. Each word has a single writer: the
//! supervisor owns the server word and the payload, the target owns the
//! client word. The process boundary itself (mapping the region and the
//! acquire/release discipline on the flag words) cannot be verified here and
//! lives with the caller; this model pins down the words' meanings, the
//! legal transitions, and what each side may do in which state.

use vstd::prelude::*;

verus! {

/// What the target reports through its status word.
#[derive(Debug, Clone, Copy, PartialEq, Eq, Structural)]
pub enum TestStatus {
    Passed,
    Failed,
    Skipped,
    InsufficientBytes,
}

/// The client-status word: idle, requesting work, or reporting a verdict.
#[derive(Debug, Clone, Copy, PartialEq, Eq, Structural)]
pub enum ClientStatus {
    Default,
    Ready,
    Test(TestStatus),
}

/// The server-status word: idle or payload ready.
#[derive(Debug, Clone, Copy, PartialEq, Eq, Structural)]
pub enum ServerStatus {
    Default,
    Ready,
}

/// The numeric code of a server status in the shared region.
pub open spec fn server_status_code(s: ServerStatus) -> u64 {
    match s {
        ServerStatus::Default => 0,
        ServerStatus::Ready => 1,
    }
}

/// The numeric code of a client status in the shared region.
pub open spec fn client_status_code(s: ClientStatus) -> u64 {
    match s {
        ClientStatus::Default => 0,
        ClientStatus::Ready => 1,
        ClientStatus::Test(TestStatus::Passed) => 2,
        ClientStatus::Test(TestStatus::Skipped) => 3,
        ClientStatus::Test(TestStatus::Failed) => 4,
        ClientStatus::Test(TestStatus::InsufficientBytes) => 5,
    }
}

/// The server status a region word decodes to; words above 1 never occur.
pub open spec fn decode_server(code: u64) -> ServerStatus {
    if code == 1 {
        ServerStatus::Ready
    } else {
        ServerStatus::Default
    }
}

/// The client status a region word decodes to; words above 5 never occur.
pub open spec fn decode_client(code: u64) -> ClientStatus {
    if code == 1 {
        ClientStatus::Ready
    } else if code == 2 {
        ClientStatus::Test(TestStatus::Passed)
    } else if code == 3 {
        ClientStatus::Test(TestStatus::Skipped)
    } else if code == 4 {
        ClientStatus::Test(TestStatus::Failed)
    } else if code == 5 {
        ClientStatus::Test(TestStatus::InsufficientBytes)
    } else {
        ClientStatus::Default
    }
}

/// Decode a server-status word, as `decode_server` reads it.
pub fn decode_server_word(code: u64) -> (s: ServerStatus)
    ensures
        s == decode_server(code),
{
    if code == 1 {
        ServerStatus::Ready
    } else {
        ServerStatus::Default
    }
}

/// Decode a client-status word, as `decode_client` reads it.
pub fn decode_client_word(code: u64) -> (s: ClientStatus)
    ensures
        s == decode_client(code),
{
    if code == 1 {
        ClientStatus::Ready
    } else if code == 2 {
        ClientStatus::Test(TestStatus::Passed)
    } else if code == 3 {
        ClientStatus::Test(TestStatus::Skipped)
    } else if code == 4 {
        ClientStatus::Test(TestStatus::Failed)
    } else if code == 5 {
        ClientStatus::Test(TestStatus::InsufficientBytes)
    } else {
        ClientStatus::Default
    }
}

/// Encode a server status into its region word.
pub fn encode_server_word(s: ServerStatus) -> (code: u64)
    ensures
        code == server_status_code(s),
{
    match s {
        ServerStatus::Default => 0,
        ServerStatus::Ready => 1,
    }
}

/// Encode a client status into its region word.
pub fn encode_client_word(s: ClientStatus) -> (code: u64)
    ensures
        code == client_status_code(s),
{
    match s {
        ClientStatus::Default => 0,
        ClientStatus::Ready => 1,
        ClientStatus::Test(TestStatus::Passed) => 2,
        ClientStatus::Test(TestStatus::Skipped) => 3,
        ClientStatus::Test(TestStatus::Failed) => 4,
        ClientStatus::Test(TestStatus::InsufficientBytes) => 5,
    }
}

/// The shared region's state: two status words and the payload.
pub struct Comm {
    server_word: u64,
    client_word: u64,
    payload: Vec<u8>,
    capacity: usize,
}

impl Comm {
    /// The raw server-status word.
    pub closed spec fn server_code(&self) -> u64 {
        self.server_word
    }

    /// The raw client-status word.
    pub closed spec fn client_code(&self) -> u64 {
        self.client_word
    }

    /// The payload bytes currently in the region.
    pub closed spec fn data(&self) -> Seq<u8> {
        self.payload@
    }

    /// How many payload bytes the region can carry.
    pub closed spec fn cap(&self) -> int {
        self.capacity as int
    }

    /// The decoded server status.
    pub open spec fn server(&self) -> ServerStatus {
        decode_server(self.server_code())
    }

    /// The decoded client status.
    pub open spec fn client(&self) -> ClientStatus {
        decode_client(self.client_code())
    }

    /// Both status words hold legal codes and the payload fits the region.
    pub open spec fn wf(&self) -> bool {
        &&& self.server_code() <= 1
        &&& self.client_code() <= 5
        &&& self.data().len() <= self.cap()
    }

    /// The protocol's safety condition: the server never stands armed while
    /// the client has not requested work.
    pub open spec fn protocol_ok(&self) -> bool {
        !(self.server() is Ready && self.client() is Default)
    }

    /// A fresh region of `len` total bytes, all words zero, leaving the
    /// stated 128 bytes of header room.
    pub fn new(len: usize) -> (r: Comm)
        requires
            len > 128,
        ensures
            r.wf(),
            r.server() is Default,
            r.client() is Default,
            r.data() == Seq::<u8>::empty(),
            r.cap() == len - 128,
            r.protocol_ok(),
    {
        Comm { server_word: 0, client_word: 0, payload: Vec::new(), capacity: len - 128 }
    }

    /// Store a payload in the region, replacing the previous one.
    pub fn write(&mut self, buf: &Vec<u8>)
        requires
            old(self).wf(),
            buf@.len() <= old(self).cap(),
        ensures
            final(self).wf(),
            final(self).data() == buf@,
            final(self).server() == old(self).server(),
            final(self).client() == old(self).client(),
            final(self).cap() == old(self).cap(),
    {
        self.payload.clear();
        let n = buf.len();
        let mut k: usize = 0;
        while k < n
            invariant
                k <= n,
                n == buf@.len(),
                self.payload@ == buf@.subrange(0, k as int),
                self.server_word == old(self).server_word,
                self.client_word == old(self).client_word,
                self.capacity == old(self).capacity,
                n <= self.capacity,
            decreases n - k,
        {
            self.payload.push(buf[k]);
            proof {
                assert(self.payload@ == buf@.subrange(0, k + 1));
            }
            k += 1;
        }
        proof {
            assert(self.payload@ == buf@);
        }
    }

    /// Read the payload out of the region.
    pub fn read(&self) -> (r: Vec<u8>)
        ensures
            r@ == self.data(),
    {
        let n = self.payload.len();
        let mut out: Vec<u8> = Vec::new();
        let mut k: usize = 0;
        while k < n
            invariant
                k <= n,
                n == self.payload@.len(),
                out@ == self.payload@.subrange(0, k as int),
            decreases n - k,
        {
            out.push(self.payload[k]);
            proof {
                assert(out@ == self.payload@.subrange(0, k + 1));
            }
            k += 1;
        }
        proof {
            assert(out@ == self.payload@);
        }
        out
    }

    /// Lower the server flag.
    pub fn server_reset(&mut self)
        requires
            old(self).wf(),
        ensures
            final(self).wf(),
            final(self).server() is Default,
            final(self).client() == old(self).client(),
            final(self).data() == old(self).data(),
            final(self).cap() == old(self).cap(),
    {
        self.server_word = 0;
    }

    /// Raise the server flag: the payload is ready for the target.
    pub fn server_ready(&mut self)
        requires
            old(self).wf(),
        ensures
            final(self).wf(),
            final(self).server() is Ready,
            final(self).client() == old(self).client(),
            final(self).data() == old(self).data(),
            final(self).cap() == old(self).cap(),
    {
        self.server_word = 1;
    }

    /// Decode the server-status word.
    pub fn server_status(&self) -> (s: ServerStatus)
        requires
            self.wf(),
        ensures
            s == self.server(),
    {
        decode_server_word(self.server_word)
    }

    /// Lower the client flag.
    pub fn client_reset(&mut self)
        requires
            old(self).wf(),
        ensures
            final(self).wf(),
            final(self).client() is Default,
            final(self).server() == old(self).server(),
            final(self).data() == old(self).data(),
            final(self).cap() == old(self).cap(),
    {
        self.client_word = 0;
    }

    /// Raise the client flag: the target requests work.
    pub fn client_ready(&mut self)
        requires
            old(self).wf(),
        ensures
            final(self).wf(),
            final(self).client() is Ready,
            final(self).server() == old(self).server(),
            final(self).data() == old(self).data(),
            final(self).cap() == old(self).cap(),
    {
        self.client_word = 1;
    }

    /// Report a verdict through the client word.
    pub fn client_test_status(&mut self, status: TestStatus)
        requires
            old(self).wf(),
        ensures
            final(self).wf(),
            final(self).client() == ClientStatus::Test(status),
            final(self).server() == old(self).server(),
            final(self).data() == old(self).data(),
            final(self).cap() == old(self).cap(),
    {
        self.client_word = encode_client_word(ClientStatus::Test(status));
        proof {
            lemma_status_codes_round_trip(ClientStatus::Test(status), ServerStatus::Default);
        }
    }

    /// Decode the client-status word.
    pub fn client_status(&self) -> (s: ClientStatus)
        requires
            self.wf(),
        ensures
            s == self.client(),
    {
        decode_client_word(self.client_word)
    }

    /// One server step: arm the region. Only taken when the client has
    /// requested work and the server is idle: the payload is stored, then
    /// the server flag is raised.
    pub fn server_arm(&mut self, bytes: &Vec<u8>)
        requires
            old(self).wf(),
            old(self).client() is Ready,
            old(self).server() is Default,
            bytes@.len() <= old(self).cap(),
        ensures
            final(self).wf(),
            final(self).server() is Ready,
            final(self).client() == old(self).client(),
            final(self).data() == bytes@,
            final(self).cap() == old(self).cap(),
            legal_step(*old(self), *final(self)),
            final(self).protocol_ok(),
    {
        self.write(bytes);
        self.server_ready();
    }

    /// One server step: collect a verdict. Only taken when the client has
    /// reported one: both flags are lowered and the round is over.
    pub fn server_collect(&mut self)
        requires
            old(self).wf(),
            old(self).client() is Test,
        ensures
            final(self).wf(),
            final(self).server() is Default,
            final(self).client() is Default,
            final(self).data() == old(self).data(),
            final(self).cap() == old(self).cap(),
            legal_step(*old(self), *final(self)),
            final(self).protocol_ok(),
    {
        self.client_reset();
        self.server_reset();
    }

    /// One client step: request work. Only taken when the round is over.
    pub fn client_request(&mut self)
        requires
            old(self).wf(),
            old(self).client() is Default,
        ensures
            final(self).wf(),
            final(self).client() is Ready,
            final(self).server() == old(self).server(),
            final(self).data() == old(self).data(),
            final(self).cap() == old(self).cap(),
            legal_step(*old(self), *final(self)),
            final(self).protocol_ok(),
    {
        self.client_ready();
    }

    /// One client step: report a verdict. Only taken once the server has
    /// armed the region and the test has run.
    pub fn client_submit(&mut self, status: TestStatus)
        requires
            old(self).wf(),
            old(self).client() is Ready,
            old(self).server() is Ready,
        ensures
            final(self).wf(),
            final(self).client() == ClientStatus::Test(status),
            final(self).server() == old(self).server(),
            final(self).data() == old(self).data(),
            final(self).cap() == old(self).cap(),
            legal_step(*old(self), *final(self)),
            final(self).protocol_ok(),
    {
        self.client_test_status(status);
    }
}

/// The legal transitions of the shared region, one per protocol step: the
/// client requests work, the server arms the payload, the client reports a
/// verdict, the server collects it.
pub open spec fn legal_step(pre: Comm, post: Comm) -> bool {
    ||| (pre.client() is Default && post.client() is Ready && post.server() == pre.server())
    ||| (pre.client() is Ready && pre.server() is Default && post.server() is Ready
        && post.client() == pre.client())
    ||| (pre.client() is Ready && pre.server() is Ready && post.client() is Test
        && post.server() == pre.server())
    ||| (pre.client() is Test && post.client() is Default && post.server() is Default)
}

/// The status encodings and decodings agree: every status written to a
/// word is read back as itself.
pub proof fn lemma_status_codes_round_trip(c: ClientStatus, s: ServerStatus)
    ensures
        decode_client(client_status_code(c)) == c,
        decode_server(server_status_code(s)) == s,
{
}

/// Law: the flag words only ever take legal transitions, and no step ends
/// with the server armed while the client has not requested work. Together
/// with `Comm::new`, which starts both flags lowered, every state a protocol
/// round can reach satisfies `protocol_ok`.
pub proof fn lemma_protocol_monotone(pre: Comm, post: Comm)
    requires
        legal_step(pre, post),
    ensures
        post.protocol_ok(),
{
}


/// Law: protocol monotonicity over whole executions. Along any trace that
/// starts from a state satisfying `protocol_ok` -- as the fresh region of
/// `Comm::new` does -- and proceeds by legal steps alone, every state
/// satisfies `protocol_ok`: no execution ever observes the server armed
/// while the client has not requested work.
pub proof fn lemma_protocol_trace_ok(states: Seq<Comm>)
    requires
        states.len() > 0,
        states[0].protocol_ok(),
        forall|i: int| 0 <= i < states.len() - 1 ==> #[trigger] legal_step(states[i], states[i + 1]),
    ensures
        forall|i: int| 0 <= i < states.len() ==> (#[trigger] states[i]).protocol_ok(),
    decreases states.len(),
{
    if states.len() > 1 {
        let tail = states.drop_first();
        assert(legal_step(states[0int], states[0int + 1]));
        lemma_protocol_monotone(states[0], states[1]);
        assert forall|i: int| 0 <= i < tail.len() - 1 implies #[trigger] legal_step(
            tail[i],
            tail[i + 1],
        ) by {
            assert(legal_step(states[i + 1], states[i + 1 + 1]));
        }
        lemma_protocol_trace_ok(tail);
        assert forall|i: int| 0 <= i < states.len() implies (#[trigger] states[i]).protocol_ok() by {
            if i > 0 {
                assert(tail[i - 1].protocol_ok());
            }
        }
    }
}

} // verus!
