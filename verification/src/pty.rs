//! Trusted boundary to the pseudo-terminal transport and to the few
//! platform facilities the multiplexer needs (a fresh identifier, the
//! clock). Each item here wraps exactly the outside calls its doc comment
//! names; everything that can be stated as a rule is proved in the
//! verified modules instead.

use vstd::prelude::*;

verus! {

/// Declares `portable_pty::PtyPair`, the master/slave pair an open
/// pseudo-terminal hands back; opaque to the verifier.
#[verifier::external_type_specification]
#[verifier::external_body]
pub struct ExPtyPair(portable_pty::PtyPair);

/// Declares `portable_pty::CommandBuilder`, the argument/environment
/// recipe a child process is spawned from; opaque to the verifier.
#[verifier::external_type_specification]
#[verifier::external_body]
pub struct ExCommandBuilder(portable_pty::CommandBuilder);

/// Declares `std::time::Instant`, the monotonic start-of-session stamp;
/// opaque to the verifier.
#[verifier::external_type_specification]
#[verifier::external_body]
pub struct ExInstant(std::time::Instant);

/// The master-side handles of one spawned session: the pseudo-terminal
/// master, the exclusive input writer taken from it, and the child
/// process handle. The struct only carries them between the trusted
/// functions below; no verified code looks inside.
#[verifier::external_body]
pub(crate) struct PtyTransport {
    master: Box<dyn portable_pty::MasterPty + Send>,
    writer: Box<dyn std::io::Write + Send>,
    child: Box<dyn portable_pty::Child + Send + Sync>,
}

/// A cloneable output reader for one session's pseudo-terminal master;
/// handed out at most once per session. No verified code looks inside.
#[verifier::external_body]
pub struct PtyReader {
    inner: Box<dyn std::io::Read + Send>,
}

/// Relies on `portable_pty::native_pty_system` and
/// `PtySystem::openpty`: opens a pseudo-terminal pair of the given
/// visible size. Whether it succeeds is up to the operating system.
#[verifier::external_body]
pub(crate) fn open_pty(rows: u16, cols: u16) -> (r: Result<portable_pty::PtyPair, String>)
{
    portable_pty::native_pty_system()
        .openpty(portable_pty::PtySize { rows, cols, pixel_width: 0, pixel_height: 0 })
        .map_err(|e| format!("Failed to open PTY: {e}"))
}

/// Relies on `portable_pty::CommandBuilder::new`: starts a spawn recipe
/// for the given program.
#[verifier::external_body]
pub(crate) fn command_new(program: &String) -> (r: portable_pty::CommandBuilder)
{
    portable_pty::CommandBuilder::new(program)
}

/// Relies on `portable_pty::CommandBuilder::cwd`: records the working
/// directory the child will start in.
#[verifier::external_body]
pub(crate) fn command_cwd(cmd: &mut portable_pty::CommandBuilder, dir: &String)
{
    cmd.cwd(dir)
}

/// Relies on `portable_pty::CommandBuilder::arg`: appends one argument.
#[verifier::external_body]
pub(crate) fn command_arg(cmd: &mut portable_pty::CommandBuilder, arg: &String)
{
    cmd.arg(arg)
}

/// Relies on `portable_pty::CommandBuilder::env`: sets one environment
/// variable for the child.
#[verifier::external_body]
pub(crate) fn command_env(cmd: &mut portable_pty::CommandBuilder, key: &str, value: &str)
{
    cmd.env(key, value)
}

/// Relies on `portable_pty::CommandBuilder::env_remove`: strips one
/// inherited environment variable from the child.
#[verifier::external_body]
pub(crate) fn command_env_remove(cmd: &mut portable_pty::CommandBuilder, key: &str)
{
    cmd.env_remove(key)
}

/// Relies on `portable_pty::SlavePty::spawn_command`,
/// `portable_pty::Child::process_id` and
/// `portable_pty::MasterPty::take_writer`: spawns the child on the slave
/// side, reads its process id, takes the exclusive writer, and drops the
/// slave handle (consumed with `pair`) so the master sees end-of-stream
/// once the child exits. Success is up to the operating system.
#[verifier::external_body]
pub(crate) fn spawn_in_pty(pair: portable_pty::PtyPair, cmd: portable_pty::CommandBuilder) -> (r:
    Result<(PtyTransport, Option<u32>), String>)
{
    let child = pair
        .slave
        .spawn_command(cmd)
        .map_err(|e| format!("Failed to spawn child: {e}"))?;
    let pid = child.process_id();
    let writer = pair
        .master
        .take_writer()
        .map_err(|e| format!("Failed to take PTY writer: {e}"))?;
    Ok((PtyTransport { master: pair.master, writer, child }, pid))
}

/// Relies on `std::io::Write::write_all` on the session's input writer.
#[verifier::external_body]
pub(crate) fn transport_write_all(t: &mut PtyTransport, data: &[u8]) -> (r: Result<(), String>)
{
    t.writer.write_all(data).map_err(|e| format!("Failed to write to PTY: {e}"))
}

/// Relies on `std::io::Write::flush` on the session's input writer.
#[verifier::external_body]
pub(crate) fn transport_flush(t: &mut PtyTransport) -> (r: Result<(), String>)
{
    t.writer.flush().map_err(|e| format!("Failed to flush PTY: {e}"))
}

/// Relies on `portable_pty::MasterPty::resize`: tells the kernel the new
/// visible size, which signals the child.
#[verifier::external_body]
pub(crate) fn transport_resize(t: &PtyTransport, rows: u16, cols: u16) -> (r: Result<(), String>)
{
    t.master
        .resize(portable_pty::PtySize { rows, cols, pixel_width: 0, pixel_height: 0 })
        .map_err(|e| format!("Failed to resize PTY: {e}"))
}

/// Relies on `portable_pty::ChildKiller::kill`: asks the child process to
/// terminate. A child that already exited may report an error.
#[verifier::external_body]
pub(crate) fn transport_kill(t: &mut PtyTransport) -> (r: Result<(), String>)
{
    t.child.kill().map_err(|e| format!("Failed to kill session: {e}"))
}

/// Relies on `portable_pty::MasterPty::try_clone_reader`: obtains a
/// readable handle on the session's output stream.
#[verifier::external_body]
pub(crate) fn transport_clone_reader(t: &PtyTransport) -> (r: Result<PtyReader, String>)
{
    t.master
        .try_clone_reader()
        .map(|inner| PtyReader { inner })
        .map_err(|e| format!("Failed to clone PTY reader: {e}"))
}

/// Relies on `std::io::Read::read`: fills a prefix of `buf` with the next
/// available output bytes. Its documentation promises that the count
/// never exceeds the buffer's length and that zero means end of stream;
/// which bytes arrive depends on the child and on timing.
#[verifier::external_body]
pub(crate) fn reader_read(r: &mut PtyReader, buf: &mut Vec<u8>) -> (n: Result<usize, String>)
    ensures
        final(buf)@.len() == old(buf)@.len(),
        n matches Ok(count) ==> count <= final(buf)@.len(),
{
    r.inner
        .read(buf.as_mut_slice())
        .map_err(|e| format!("PTY read error: {e}"))
}

/// Relies on `uuid::Uuid::new_v4` and its `Display` form: a freshly
/// generated random identifier. Randomness promises nothing the verifier
/// could use; the session table checks freshness itself.
#[verifier::external_body]
pub(crate) fn new_session_id() -> (r: String)
{
    uuid::Uuid::new_v4().to_string()
}

/// Relies on `std::time::SystemTime::now`: seconds since the epoch, for
/// display; zero if the wall clock is somehow before the epoch.
#[verifier::external_body]
pub(crate) fn epoch_now_secs() -> (r: u64)
{
    std::time::SystemTime::now()
        .duration_since(std::time::UNIX_EPOCH)
        .unwrap_or_default()
        .as_secs()
}

/// Relies on `std::time::Instant::now`: a monotonic stamp taken at spawn
/// time.
#[verifier::external_body]
pub(crate) fn instant_now() -> (r: std::time::Instant)
{
    std::time::Instant::now()
}

/// Relies on `std::time::Instant::elapsed`: whole seconds since the
/// stamp was taken.
#[verifier::external_body]
pub(crate) fn instant_elapsed_secs(t: &std::time::Instant) -> (r: u64)
{
    t.elapsed().as_secs()
}

/// Relies on `str`'s `PartialEq`: two string slices are equal exactly
/// when their character sequences are.
#[verifier::external_body]
pub(crate) fn str_eq(a: &str, b: &str) -> (r: bool)
    ensures
        r == (a@ == b@),
{
    a == b
}

} // verus!
