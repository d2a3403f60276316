//! Bounded, bidirectional message-relay core.
//!
//! A relay server accepts a strictly limited number of concurrent client
//! connections, parses inbound command envelopes, dispatches them to named
//! command handlers, and returns serialized response envelopes.  A worker
//! subsystem supervises a single external worker subprocess and speaks a
//! half-duplex request/response protocol with it over its own link.
//!
//! The crate holds the decision logic of that core: envelope parsing and
//! serialization, command dispatch, connection admission, the per-connection
//! frame loop, and the worker lifecycle state machine.  The host process
//! around it performs the socket, process and timer work and feeds events
//! back into these functions.

pub mod client;
pub mod codec;
pub mod connection;
pub mod dispatch;
pub mod envelope;
pub mod gate;
pub mod license;
pub mod numtext;
pub mod worker;

pub use client::{WorkerCallError, WorkerReplyEvent, handle_worker_reply};
pub use connection::{AdmitStep, Frame, FrameStep, Notice, OutFrame};
pub use connection::{admit_connection, handle_frame, handle_text};
pub use dispatch::dispatch;
pub use envelope::{ReqModel, Request, RespModel, Response, Status};
pub use gate::Gate;
pub use worker::{ConnectPlan, LaunchPlan, ReadyEvent, StartFailure, StopAction};
pub use worker::{WorkerError, WorkerPhase, WorkerSystem, is_ready_line};
