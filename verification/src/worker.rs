//! The HTTP worker pool: a fixed set of independent workers, each
//! serving one connection at a time over the shared stack handle.
//!
//! A worker owns its own receive buffer and walks one connection through
//! accept, the wait for the first byte, reading a bounded request,
//! writing the response, and — on a kept-alive connection — back to the
//! wait for the next request's first byte. Every timeout, malformed
//! head, peer close or exhausted buffer abandons the connection and
//! returns the worker to accepting; nothing is retried. The worker
//! decides; the caller moves the bytes: it feeds arriving bytes in,
//! writes the returned response out, and reports timeouts, write
//! completion and closes.
//!
//! Workers never touch one another: consuming an event at one index of
//! the pool leaves every other worker exactly as it was, so a slow or
//! stalled client occupies only its own worker.

use vstd::prelude::*;

use crate::http::{parse_request, parse_request_spec, RequestParse, SpecParse};
use crate::led::LedFlag;
use crate::response::{response_bytes, SpecResponse};
use crate::json::{parse_led_body_spec, success_body};
use crate::response::ContentType;
use crate::router::{
    led_after, response_body, response_content_type, response_status, spec_route, Router,
};
use crate::http::SpecRequest;

verus! {

/// How many workers serve concurrently.
pub const WEB_TASK_POOL_SIZE: usize = 2;

/// The port the service listens on.
pub const HTTP_PORT: u16 = 80;

/// Each worker's TCP receive and transmit buffers, in bytes.
pub const TCP_BUFFER_LEN: usize = 1024;

/// Each worker's request parse buffer, in bytes. A request that does
/// not fit is abandoned.
pub const HTTP_BUFFER_LEN: usize = 2048;

/// The per-connection timeout policy, each window in milliseconds and
/// `None` meaning unbounded.
#[derive(Clone, Copy, Debug, PartialEq, Eq)]
pub struct Timeouts {
    /// From accept until the first byte of the first request.
    pub start_read_request: Option<u64>,
    /// From a response until the first byte of the next request on a
    /// kept-alive connection.
    pub persistent_start_read_request: Option<u64>,
    /// For a request being read to finish arriving.
    pub read_request: Option<u64>,
    /// For a response write to finish.
    pub write: Option<u64>,
}

/// The server configuration the workers run under.
#[derive(Clone, Copy, Debug, PartialEq, Eq)]
pub struct ServerConfig {
    pub timeouts: Timeouts,
    /// Whether a connection is kept for further requests after a
    /// response.
    pub keep_alive: bool,
}

/// The configuration the application runs with: five-second windows for
/// a first request, one second for everything after, connections kept
/// alive.
pub open spec fn standard_config() -> ServerConfig {
    ServerConfig {
        timeouts: Timeouts {
            start_read_request: Some(5000),
            persistent_start_read_request: Some(1000),
            read_request: Some(1000),
            write: Some(1000),
        },
        keep_alive: true,
    }
}

/// Where a worker stands with its current connection.
#[derive(Clone, Copy, Debug, PartialEq, Eq, Structural)]
pub enum WorkerPhase {
    /// No connection: ready to accept.
    Accepting,
    /// A connection is open; no byte of the next request has arrived.
    /// `kept_alive` says whether a response has already been served on
    /// this connection.
    AwaitFirstByte { kept_alive: bool },
    /// Bytes of a request have arrived and it is not complete yet.
    ReadingRequest,
    /// A response is being written; `keep_alive` says whether the
    /// connection survives it.
    Writing { keep_alive: bool },
}

/// What the caller must do with the bytes it just fed in.
#[derive(Debug)]
pub enum DataOutcome {
    /// The request is incomplete: read more.
    NeedMore,
    /// The connection is abandoned: close it.
    Abort,
    /// A response to write back.
    Respond(Vec<u8>),
}

/// A data outcome, in specification terms.
pub enum SpecOutcome {
    NeedMore,
    Abort,
    Respond(Seq<u8>),
}

impl DataOutcome {
    /// The outcome in specification terms.
    pub open spec fn view(&self) -> SpecOutcome {
        match *self {
            DataOutcome::NeedMore => SpecOutcome::NeedMore,
            DataOutcome::Abort => SpecOutcome::Abort,
            DataOutcome::Respond(ref v) => SpecOutcome::Respond(v@),
        }
    }
}

/// The full effect of feeding `data` to a worker: how the phase, the
/// buffer, the LED flag and the outcome relate. The worker appends the
/// bytes, parses, and either keeps reading (while the buffer has room),
/// abandons the connection, or dispatches the complete request and
/// answers with its rendered response, keeping any pipelined leftover
/// bytes.
pub open spec fn data_step_ok(
    phase0: WorkerPhase,
    buf0: Seq<u8>,
    data: Seq<u8>,
    cfg: ServerConfig,
    led0: bool,
    phase1: WorkerPhase,
    buf1: Seq<u8>,
    led1: bool,
    out: SpecOutcome,
) -> bool {
    let all = buf0 + data;
    match parse_request_spec(all) {
        SpecParse::Incomplete => {
            if all.len() >= HTTP_BUFFER_LEN {
                &&& out is Abort
                &&& phase1 is Accepting
                &&& buf1 == Seq::<u8>::empty()
                &&& led1 == led0
            } else {
                &&& out is NeedMore
                &&& phase1 is ReadingRequest
                &&& buf1 == all
                &&& led1 == led0
            }
        },
        SpecParse::Invalid(_) => {
            &&& out is Abort
            &&& phase1 is Accepting
            &&& buf1 == Seq::<u8>::empty()
            &&& led1 == led0
        },
        SpecParse::Complete(req, used) => {
            &&& out == SpecOutcome::Respond(
                response_bytes(
                    SpecResponse {
                        status: response_status(req),
                        content_type: response_content_type(req),
                        body: response_body(req),
                    },
                ),
            )
            &&& led1 == led_after(req, led0)
            &&& phase1 == (WorkerPhase::Writing { keep_alive: cfg.keep_alive && req.http11 })
            &&& buf1 == all.subrange(used, all.len() as int)
        },
    }
}

/// The timeout window governing a worker in the given phase.
pub open spec fn governing_timeout(phase: WorkerPhase, cfg: ServerConfig) -> Option<u64> {
    match phase {
        WorkerPhase::Accepting => None,
        WorkerPhase::AwaitFirstByte { kept_alive } => if kept_alive {
            cfg.timeouts.persistent_start_read_request
        } else {
            cfg.timeouts.start_read_request
        },
        WorkerPhase::ReadingRequest => cfg.timeouts.read_request,
        WorkerPhase::Writing { .. } => cfg.timeouts.write,
    }
}

/// One worker: its phase and its own receive buffer, reused across
/// connections and shared with nobody.
pub struct Worker {
    phase: WorkerPhase,
    buf: Vec<u8>,
}

impl Worker {
    /// The worker's phase.
    pub closed spec fn spec_phase(&self) -> WorkerPhase {
        self.phase
    }

    /// The bytes received so far for the request being read.
    pub closed spec fn spec_buf(&self) -> Seq<u8> {
        self.buf@
    }

    /// A fresh worker, ready to accept.
    pub fn new() -> (r: Worker)
        ensures
            r.spec_phase() is Accepting,
            r.spec_buf() == Seq::<u8>::empty(),
    {
        Worker { phase: WorkerPhase::Accepting, buf: Vec::new() }
    }

    /// The worker's phase.
    pub fn phase(&self) -> (r: WorkerPhase)
        ensures
            r == self.spec_phase(),
    {
        self.phase
    }

    /// How many received bytes wait unparsed — after a kept-alive
    /// response, a pipelined next request may already be here.
    pub fn buffered(&self) -> (r: usize)
        ensures
            r == self.spec_buf().len(),
    {
        self.buf.len()
    }

    /// The timeout window the caller must arm for the current phase.
    pub fn timeout(&self, config: &ServerConfig) -> (r: Option<u64>)
        ensures
            r == governing_timeout(self.spec_phase(), *config),
    {
        match self.phase {
            WorkerPhase::Accepting => None,
            WorkerPhase::AwaitFirstByte { kept_alive } => if kept_alive {
                config.timeouts.persistent_start_read_request
            } else {
                config.timeouts.start_read_request
            },
            WorkerPhase::ReadingRequest => config.timeouts.read_request,
            WorkerPhase::Writing { .. } => config.timeouts.write,
        }
    }

    /// A connection arrived: wait for its first byte.
    pub fn on_accepted(&mut self)
        requires
            old(self).spec_phase() is Accepting,
        ensures
            final(self).spec_phase() == (WorkerPhase::AwaitFirstByte { kept_alive: false }),
            final(self).spec_buf() == Seq::<u8>::empty(),
    {
        self.phase = WorkerPhase::AwaitFirstByte { kept_alive: false };
        self.buf = Vec::new();
    }

    /// Bytes arrived: append them, parse, and either keep reading,
    /// abandon the connection, or dispatch the complete request and hand
    /// back the rendered response.
    pub fn on_data(
        &mut self,
        data: &[u8],
        config: &ServerConfig,
        router: &Router,
        led: &mut LedFlag,
    ) -> (r: DataOutcome)
        requires
            old(self).spec_phase() is AwaitFirstByte || old(self).spec_phase() is ReadingRequest,
            router.wf(),
        ensures
            data_step_ok(
                old(self).spec_phase(),
                old(self).spec_buf(),
                data@,
                *config,
                old(led)@,
                final(self).spec_phase(),
                final(self).spec_buf(),
                final(led)@,
                r@,
            ),
    {
        crate::bytes::push_bytes(&mut self.buf, data);
        match parse_request(self.buf.as_slice()) {
            RequestParse::Incomplete => {
                if self.buf.len() >= HTTP_BUFFER_LEN {
                    self.buf = Vec::new();
                    self.phase = WorkerPhase::Accepting;
                    DataOutcome::Abort
                } else {
                    self.phase = WorkerPhase::ReadingRequest;
                    DataOutcome::NeedMore
                }
            },
            RequestParse::Invalid(_) => {
                self.buf = Vec::new();
                self.phase = WorkerPhase::Accepting;
                DataOutcome::Abort
            },
            RequestParse::Complete(req, used) => {
                let resp = router.handle(&req, led);
                let out = resp.to_bytes();
                let rest = crate::bytes::copy_range(self.buf.as_slice(), used, self.buf.len());
                self.buf = rest;
                self.phase = WorkerPhase::Writing {
                    keep_alive: config.keep_alive && req.http11,
                };
                DataOutcome::Respond(out)
            },
        }
    }

    /// The response has been written. Returns whether the connection
    /// stays open: a kept-alive connection goes back to waiting for the
    /// next request's first byte; any other is closed and the worker
    /// accepts again.
    pub fn on_write_done(&mut self) -> (open_conn: bool)
        requires
            old(self).spec_phase() is Writing,
        ensures
            old(self).spec_phase() matches WorkerPhase::Writing { keep_alive } ==> {
                &&& open_conn == keep_alive
                &&& (keep_alive ==> final(self).spec_phase() == (WorkerPhase::AwaitFirstByte {
                    kept_alive: true,
                }) && final(self).spec_buf() == old(self).spec_buf())
                &&& (!keep_alive ==> final(self).spec_phase() is Accepting
                    && final(self).spec_buf() == Seq::<u8>::empty())
            },
    {
        match self.phase {
            WorkerPhase::Writing { keep_alive } => {
                if keep_alive {
                    self.phase = WorkerPhase::AwaitFirstByte { kept_alive: true };
                    true
                } else {
                    self.phase = WorkerPhase::Accepting;
                    self.buf = Vec::new();
                    false
                }
            },
            _ => false,
        }
    }

    /// The governing timeout fired: the connection is abandoned, never
    /// retried, and the worker is at once available to accept again.
    pub fn on_timeout(&mut self)
        ensures
            final(self).spec_phase() is Accepting,
            final(self).spec_buf() == Seq::<u8>::empty(),
    {
        self.phase = WorkerPhase::Accepting;
        self.buf = Vec::new();
    }

    /// The peer closed the connection: the worker accepts again.
    pub fn on_peer_closed(&mut self)
        ensures
            final(self).spec_phase() is Accepting,
            final(self).spec_buf() == Seq::<u8>::empty(),
    {
        self.phase = WorkerPhase::Accepting;
        self.buf = Vec::new();
    }
}

/// Whether `post` is `pre` with at most the worker at `i` changed.
pub open spec fn frame(pre: Seq<Worker>, post: Seq<Worker>, i: int) -> bool {
    &&& post.len() == pre.len()
    &&& forall|j: int| 0 <= j < pre.len() && j != i ==> post[j] == pre[j]
}

/// The fixed set of workers. Each event names one worker; the others
/// are untouched, so no worker ever blocks another.
pub struct HttpWorkerPool {
    workers: Vec<Worker>,
}

impl HttpWorkerPool {
    /// The workers.
    pub closed spec fn spec_workers(&self) -> Seq<Worker> {
        self.workers@
    }

    /// How many workers the pool runs.
    pub open spec fn spec_len(&self) -> int {
        self.spec_workers().len() as int
    }

    /// A pool of `size` fresh workers, all accepting.
    pub fn new(size: usize) -> (r: HttpWorkerPool)
        ensures
            r.spec_len() == size,
            forall|i: int|
                0 <= i < size ==> (#[trigger] r.spec_workers()[i]).spec_phase() is Accepting
                    && r.spec_workers()[i].spec_buf() == Seq::<u8>::empty(),
    {
        let mut workers: Vec<Worker> = Vec::new();
        let mut k: usize = 0;
        while k < size
            invariant
                0 <= k <= size,
                workers@.len() == k,
                forall|i: int|
                    0 <= i < k ==> (#[trigger] workers@[i]).spec_phase() is Accepting
                        && workers@[i].spec_buf() == Seq::<u8>::empty(),
            decreases size - k,
        {
            workers.push(Worker::new());
            k = k + 1;
        }
        HttpWorkerPool { workers }
    }

    /// How many workers the pool runs.
    pub fn len(&self) -> (r: usize)
        ensures
            r == self.spec_len(),
    {
        self.workers.len()
    }

    /// The phase of the worker at `i`.
    pub fn phase_of(&self, i: usize) -> (r: WorkerPhase)
        requires
            i < self.spec_len(),
        ensures
            r == self.spec_workers()[i as int].spec_phase(),
    {
        self.workers[i].phase()
    }

    /// The lowest-indexed worker free to accept, if any: a connection
    /// beyond the pool size finds none and waits or is rejected at the
    /// transport, while the occupied workers go on undisturbed.
    pub fn idle_worker(&self) -> (r: Option<usize>)
        ensures
            match r {
                Some(i) => {
                    &&& 0 <= i < self.spec_len()
                    &&& self.spec_workers()[i as int].spec_phase() is Accepting
                    &&& forall|j: int|
                        0 <= j < i ==> !((#[trigger] self.spec_workers()[j]).spec_phase()
                            is Accepting)
                },
                None => forall|j: int|
                    0 <= j < self.spec_len() ==> !((#[trigger] self.spec_workers()[j]).spec_phase()
                        is Accepting),
            },
    {
        let mut k: usize = 0;
        while k < self.workers.len()
            invariant
                0 <= k <= self.spec_len(),
                forall|j: int|
                    0 <= j < k ==> !((#[trigger] self.spec_workers()[j]).spec_phase()
                        is Accepting),
            decreases self.spec_len() - k,
        {
            if matches!(self.workers[k].phase(), WorkerPhase::Accepting) {
                return Some(k);
            }
            k = k + 1;
        }
        None
    }

    /// A connection arrived for worker `i`; every other worker is
    /// untouched.
    pub fn on_accepted(&mut self, i: usize)
        requires
            i < old(self).spec_len(),
            old(self).spec_workers()[i as int].spec_phase() is Accepting,
        ensures
            frame(old(self).spec_workers(), final(self).spec_workers(), i as int),
            final(self).spec_workers()[i as int].spec_phase() == (WorkerPhase::AwaitFirstByte {
                kept_alive: false,
            }),
            final(self).spec_workers()[i as int].spec_buf() == Seq::<u8>::empty(),
    {
        let w = &mut self.workers[i];
        w.on_accepted();
    }

    /// Bytes arrived for worker `i`; every other worker is untouched.
    pub fn on_data(
        &mut self,
        i: usize,
        data: &[u8],
        config: &ServerConfig,
        router: &Router,
        led: &mut LedFlag,
    ) -> (r: DataOutcome)
        requires
            i < old(self).spec_len(),
            old(self).spec_workers()[i as int].spec_phase() is AwaitFirstByte || old(
                self,
            ).spec_workers()[i as int].spec_phase() is ReadingRequest,
            router.wf(),
        ensures
            frame(old(self).spec_workers(), final(self).spec_workers(), i as int),
            data_step_ok(
                old(self).spec_workers()[i as int].spec_phase(),
                old(self).spec_workers()[i as int].spec_buf(),
                data@,
                *config,
                old(led)@,
                final(self).spec_workers()[i as int].spec_phase(),
                final(self).spec_workers()[i as int].spec_buf(),
                final(led)@,
                r@,
            ),
    {
        let w = &mut self.workers[i];
        w.on_data(data, config, router, led)
    }

    /// Worker `i` finished writing its response; every other worker is
    /// untouched. Returns whether the connection stays open.
    pub fn on_write_done(&mut self, i: usize) -> (open_conn: bool)
        requires
            i < old(self).spec_len(),
            old(self).spec_workers()[i as int].spec_phase() is Writing,
        ensures
            frame(old(self).spec_workers(), final(self).spec_workers(), i as int),
            old(self).spec_workers()[i as int].spec_phase() matches WorkerPhase::Writing {
                keep_alive,
            } ==> {
                &&& open_conn == keep_alive
                &&& (keep_alive ==> final(self).spec_workers()[i as int].spec_phase() == (
                WorkerPhase::AwaitFirstByte { kept_alive: true }) && final(self).spec_workers()[
                    i as int
                ].spec_buf() == old(self).spec_workers()[i as int].spec_buf())
                &&& (!keep_alive ==> final(self).spec_workers()[i as int].spec_phase()
                    is Accepting && final(self).spec_workers()[i as int].spec_buf()
                    == Seq::<u8>::empty())
            },
    {
        let w = &mut self.workers[i];
        w.on_write_done()
    }

    /// The governing timeout fired for worker `i`: its connection is
    /// dropped and it is at once free to accept, with every other worker
    /// untouched.
    pub fn on_timeout(&mut self, i: usize)
        requires
            i < old(self).spec_len(),
        ensures
            frame(old(self).spec_workers(), final(self).spec_workers(), i as int),
            final(self).spec_workers()[i as int].spec_phase() is Accepting,
            final(self).spec_workers()[i as int].spec_buf() == Seq::<u8>::empty(),
    {
        let w = &mut self.workers[i];
        w.on_timeout();
    }

    /// The peer of worker `i` closed its connection; every other worker
    /// is untouched.
    pub fn on_peer_closed(&mut self, i: usize)
        requires
            i < old(self).spec_len(),
        ensures
            frame(old(self).spec_workers(), final(self).spec_workers(), i as int),
            final(self).spec_workers()[i as int].spec_phase() is Accepting,
            final(self).spec_workers()[i as int].spec_buf() == Seq::<u8>::empty(),
    {
        let w = &mut self.workers[i];
        w.on_peer_closed();
    }
}

/// Everything the startup code hands the worker tasks: the router and
/// the timeout policy.
pub struct WebApp {
    pub router: Router,
    pub config: ServerConfig,
}

impl Default for WebApp {
    /// The application as started at boot: the two routes, and the
    /// standard timeout policy with keep-alive on.
    fn default() -> (r: WebApp)
        ensures
            r.router.wf(),
            r.config == standard_config(),
    {
        WebApp {
            router: crate::router::Application.build_app(),
            config: ServerConfig {
                timeouts: Timeouts {
                    start_read_request: Some(5000),
                    persistent_start_read_request: Some(1000),
                    read_request: Some(1000),
                    write: Some(1000),
                },
                keep_alive: true,
            },
        }
    }
}

/// Law: a complete `POST /led` request served by a worker ends the
/// exchange exactly as the body asks. With a well-formed body the flag
/// reads the requested value and the rendered 200 JSON success response
/// goes out; with a malformed body the flag is untouched and the
/// rendered 400 response goes out.
pub proof fn lemma_led_exchange(
    phase0: WorkerPhase,
    buf0: Seq<u8>,
    data: Seq<u8>,
    cfg: ServerConfig,
    led0: bool,
    phase1: WorkerPhase,
    buf1: Seq<u8>,
    led1: bool,
    out: SpecOutcome,
    req: SpecRequest,
    used: int,
)
    requires
        data_step_ok(phase0, buf0, data, cfg, led0, phase1, buf1, led1, out),
        parse_request_spec(buf0 + data) == SpecParse::Complete(req, used),
        spec_route(req.method, req.path) is LedControl,
    ensures
        parse_led_body_spec(req.body) matches Some(on) ==> led1 == on && out
            == SpecOutcome::Respond(
            response_bytes(
                SpecResponse {
                    status: 200,
                    content_type: Some(ContentType::Json),
                    body: success_body(),
                },
            ),
        ),
        parse_led_body_spec(req.body) is None ==> led1 == led0 && out == SpecOutcome::Respond(
            response_bytes(
                SpecResponse { status: 400, content_type: None, body: Seq::<u8>::empty() },
            ),
        ),
{
}

/// The program's panic handler: an unrecoverable fault halts the
/// device, forever. The endless idle loop cannot stand in verified
/// code; the driver performs the halt this orders.
pub fn panic() -> (r: crate::fault::Halt)
    ensures
        r == crate::fault::Halt::Forever,
{
    crate::fault::Halt::Forever
}

} // verus!
