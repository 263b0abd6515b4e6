use vstd::prelude::*;

verus! {

/// The settings of the server, as the properties file gives them.
#[derive(Debug)]
pub struct Config {
    pub server_port: usize,
    pub max_players: usize,
    pub motd: std::string::String,
}

impl Config {
    /// The port when the file names none.
    pub fn default_server_port() -> (res: usize)
        ensures
            res == 25565,
    {
        25565
    }

    /// The player limit when the file names none.
    pub fn default_max_players() -> (res: usize)
        ensures
            res == 20,
    {
        20
    }

    /// The message of the day when the file names none.
    pub fn default_motd() -> (res: std::string::String)
        ensures
            res@ == "A Minecraft Server"@,
    {
        std::string::String::from_str("A Minecraft Server")
    }
}

impl Default for Config {
    fn default() -> (res: Self)
        ensures
            res.server_port == 25565,
            res.max_players == 20,
            res.motd@ == "A Minecraft Server"@,
    {
        Self {
            server_port: Self::default_server_port(),
            max_players: Self::default_max_players(),
            motd: Self::default_motd(),
        }
    }
}

} // verus!
