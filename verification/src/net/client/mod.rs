/// The game client: what only it offers.
pub mod game;
/// The NpcControl client: its configuration.
pub mod nc;
/// The RemoteControl client: its configuration, its login and the NPC server address.
pub mod rc;
/// The requests that wait for a response.
pub mod pending;
