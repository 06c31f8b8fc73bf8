//! A small movie-catalogue HTTP service: request framing and routing,
//! per-resource handler decisions, and the job queue of its worker pool.
//! Sockets, threads and the remote document store live in the application.

pub mod document;
pub mod handlers;
pub mod http_text;
pub mod pool;
pub mod request;
pub mod routing;

pub use http_text::{decimal, format_response, handle_400, handle_404, is_whitespace, Status};
pub use pool::{
    worker_step, JobOutcome, Message, PoolError, ThreadPool, WorkerEvent, WorkerState,
};
pub use handlers::{
    plan_request, render_created, render_fetched, render_removed, render_updated, BackendError, Plan,
    StoreOutcome,
};
pub use request::{parse_request_line, request_body, sanitize_body};
pub use routing::{route, same_text, Endpoint, Resource, Verb};
