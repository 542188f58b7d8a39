//! Zero-copy data transfer with `splice(2)`, in one direction or in both, as
//! state machines that do no I/O of their own.
//!
//! A transfer moves data from a reader into a pipe and from the pipe to a
//! writer, without copying it through user space. What it does next depends on
//! what the kernel, the reader and the writer have answered so far; that is what
//! this library decides. The caller performs the actions that it asks for, see
//! [`step`].
//!
//! * [`context`]: the context of a transfer, [`SpliceIoCtx`], with the two moves
//!   that it consists of.
//! * [`io`]: a transfer that is polled, [`SpliceIo`], which can be rate limited,
//!   and two of them side by side, [`SpliceBidiIo`].
//! * [`splice`]: copying with a context alone, polled or blocking.
//! * [`pipe`]: the pipes, and a pool of them.
//! * [`rate`]: the rate limit.
//! * [`traffic`]: what has been transmitted.
//! * [`laws`]: what holds of every transfer, whatever happens to it.
//!
//! # Limitations
//!
//! - When splicing data from a file to a pipe and then splicing from the pipe to
//!   a socket for transmission, the data is referenced from the page cache
//!   corresponding to the file. If the original file is modified while the
//!   splice operation is in progress, the transmitted data may be the old data.
//! - A successful `splice(2)` call returns the number of bytes transferred, but
//!   this ONLY indicates that the data has entered the kernel buffer of the
//!   destination file descriptor. A transfer has the writer flushed after bytes
//!   have been spliced to it, and before it reads on or is over.
use vstd::prelude::*;

pub mod context;
pub mod error;
pub mod io;
pub mod laws;
pub mod pipe;
pub mod rate;
pub mod splice;
pub mod step;
pub mod traffic;
pub mod utils;

pub use context::SpliceIoCtx;
pub use io::{IsFile, IsNotFile, SpliceBidiIo, SpliceIo};
pub use rate::{RateLimit, RateLimits};

verus! {

} // verus!
