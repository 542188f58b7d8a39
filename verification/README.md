# tokio_splice2

Zero-copy data transfer with `splice(2)`, in one direction or in both, with the
decisions verified by Verus.

A transfer moves data from a reader into a pipe and from the pipe to a writer,
without copying it through user space. The library under `src/` is a set of state
machines that do no I/O: they are told what has happened and answer with what to do
next. Their contracts say exactly which answer that is, and `src/laws` states what
follows of every transfer, whatever happens to it:

- no more is written than was read, and no more is read than was to be transferred;
- a transfer that ends without an error has delivered all of it, or all that the
  reader had, and has flushed the writer; a writer that claims more bytes than there
  were does not pass for success;
- the writer gets the bytes of the reader, in order, and what it has not got yet is in
  the pipe;
- a transfer from or to a file stays in the given range of the file;
- an error stops a transfer, is reported once, and leaves the counts right; a
  shutdown that fails after it does not replace it, and it is not lost while the other
  direction has to wait;
- a transfer that does not have to wait comes to an end, after a number of steps that
  is bounded by the number of bytes;
- two transfers in opposite directions do not disturb each other;
- all instances of a rate limit are the same limit, and share its total among them.

## Layout

- `src/`: the verified library. `step` holds what a transfer and its surroundings say
  to each other; `context`, `io` and `splice` the transfers; `pipe` and `pipe::pool`
  the pipes; `rate` the rate limit; `traffic` what has been transmitted; `laws` the
  laws.
- `app/`: what performs the actions, for Tokio streams and files and for blocking ones.
  It makes the system calls, keeps the clock, the timers and the token bucket, and
  guards what tasks share with locks.
- `tests/`: tests, some of which go through the kernel.

## Limitations

- Data that is spliced from a file is referenced from the page cache: if the file is
  modified while a transfer is in progress, the old or the new data may be sent.
- That `splice(2)` has moved bytes to a socket only means that they have entered its
  send buffer. The writer is flushed after each portion.
- The rate limit is only as accurate as the timer, which has a resolution of one
  millisecond.
