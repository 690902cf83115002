//! Managed execution of Python entry points.
//!
//! A request names a project root, a module to run as the entry point, the
//! arguments for it and a time limit. Before the module runs, the root is
//! made ready: the package tool must answer, a manifest must be there (a
//! default one is written where there is none), and the dependencies are
//! synced. Then the module runs as a child process under the time limit, and
//! the request gives either the full transcript of the run or the mark that
//! it was ended by the limit.
//!
//! Nothing in this library touches the host. Each operation is a state
//! machine that keeps no memory of its own: it is told the step that was
//! carried out last and what the host reported of it, and says what has to
//! happen next. The caller carries that out and comes back, until the
//! machine finishes. So every decision, and the order of the steps, lies
//! here and is verified, and the caller is left with starting processes,
//! touching files and waiting.
//!
//! - [`launch`]: what the host is asked to start, and what it reports.
//! - [`python_env`]: the environment manager, [`python_env::PyEnv`].
//! - [`runner`]: the execution supervisor, [`runner::run_python_entry`].
//! - [`host`]: a model of the host, and of whole runs against it.
//! - [`laws`]: what holds of whole runs, whatever the host does.

pub mod launch;
pub mod python_env;
pub mod runner;
pub mod host;
pub mod laws;
