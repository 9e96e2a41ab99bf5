//! The settings of the local static file server and the rules for starting
//! and stopping it. Serving the files happens outside the library.
use vstd::prelude::*;

verus! {

/// The directory served, the port, and a non-zero marker while running.
pub struct ServerConfig {
    static_path: String,
    port: u16,
    running: usize,
}

impl View for ServerConfig {
    type V = (Seq<char>, u16, usize);

    closed spec fn view(&self) -> (Seq<char>, u16, usize) {
        (self.static_path@, self.port, self.running)
    }
}

/// Why the server could not be started or stopped.
#[derive(PartialEq, Eq, Structural, Clone, Copy, Debug)]
pub enum ServerError {
    /// A server is running already.
    AlreadyRunning,
    /// No server is running.
    NotRunning,
}

impl ServerError {
    /// The readable message.
    pub fn message(&self) -> (r: &'static str)
        ensures
            r@ == server_error_message(*self),
    {
        match self {
            ServerError::AlreadyRunning => "a web server is running",
            ServerError::NotRunning => "web server not running",
        }
    }
}

pub open spec fn server_error_message(e: ServerError) -> Seq<char> {
    match e {
        ServerError::AlreadyRunning => "a web server is running"@,
        ServerError::NotRunning => "web server not running"@,
    }
}

impl ServerConfig {
    /// The settings of a server that was never started.
    pub fn new() -> (r: ServerConfig)
        ensures
            r@ == (Seq::<char>::empty(), 0u16, 0usize),
    {
        ServerConfig { static_path: String::new(), port: 0, running: 0 }
    }
}

/// Replaces the settings.
pub fn set_server_config(config: &mut ServerConfig, static_path: String, port: u16, running: usize)
    ensures
        final(config)@ == (static_path@, port, running),
{
    config.static_path = static_path;
    config.port = port;
    config.running = running;
}

/// Clears the settings, which marks the server as stopped.
pub fn unset_server_config(config: &mut ServerConfig)
    ensures
        final(config)@ == (Seq::<char>::empty(), 0u16, 0usize),
{
    set_server_config(config, String::new(), 0, 0)
}

/// A copy of the settings.
pub fn get_server_config(config: &ServerConfig) -> (r: (String, u16, usize))
    ensures
        (r.0@, r.1, r.2) == config@,
{
    (config.static_path.clone(), config.port, config.running)
}

/// Whether a server is marked as running.
pub fn is_server_running(config: &ServerConfig) -> (r: bool)
    ensures
        r == (config@.2 > 0),
{
    let (_, _, running) = get_server_config(config);
    running > 0
}

/// Checks that a server may be started: none may be running.
pub fn check_start_static_server(config: &ServerConfig) -> (r: Result<(), ServerError>)
    ensures
        r is Ok <==> config@.2 == 0,
        r is Err ==> r == Err::<(), ServerError>(ServerError::AlreadyRunning),
{
    if is_server_running(config) {
        Err(ServerError::AlreadyRunning)
    } else {
        Ok(())
    }
}

/// Records a server started on `static_path` and `port`.
pub fn mark_static_server_started(config: &mut ServerConfig, static_path: String, port: u16)
    ensures
        final(config)@ == (static_path@, port, 1usize),
{
    set_server_config(config, static_path, port, 1)
}

/// Stops the running server: clearing the settings is the signal its
/// shutdown watcher waits for. Fails when none is running.
pub fn stop_static_server(config: &mut ServerConfig) -> (r: Result<(), ServerError>)
    ensures
        old(config)@.2 == 0 ==> r == Err::<(), ServerError>(ServerError::NotRunning)
            && final(config)@ == old(config)@,
        old(config)@.2 > 0 ==> r is Ok && final(config)@ == (Seq::<char>::empty(), 0u16, 0usize),
{
    if !is_server_running(config) {
        return Err(ServerError::NotRunning);
    }
    unset_server_config(config);
    Ok(())
}

} // verus!
