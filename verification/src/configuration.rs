use vstd::prelude::*;

verus! {

/// Where the process listens for requests.
pub struct ApplicationSettings {
    pub port: u16,
    pub host: String,
}

/// The connection string of the backing store.
pub struct DatabaseSettings {
    pub name: String,
}

/// Settings for the whole process, read once at startup.
pub struct Settings {
    pub database: DatabaseSettings,
    pub application: ApplicationSettings,
}

} // verus!
