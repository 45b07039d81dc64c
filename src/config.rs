use vstd::prelude::*;

verus! {

/// Where the container runtime listens, where data files live, and the
/// token-signing secret.
#[derive(Clone, Debug, Default)]
pub struct Config {
    pub docker_sock: String,
    pub data_dir: String,
    pub jwt_secret: String,
}

/// The HTTP application; its state and routes are assembled by the binary.
#[derive(Debug, Default)]
pub struct App {}

/// Prepares the data directory holding the registry and user files.
#[derive(Debug)]
pub struct Initializer {
    data_dir: String,
}

impl Initializer {
    pub fn new(data_dir: &str) -> (r: Initializer)
        ensures
            r.dir() == data_dir@,
    {
        Initializer { data_dir: data_dir.to_owned() }
    }

    pub closed spec fn dir(&self) -> Seq<char> {
        self.data_dir@
    }

    /// The data directory.
    pub fn data_dir(&self) -> (r: &str)
        ensures
            r@ == self.dir(),
    {
        self.data_dir.as_str()
    }
}

} // verus!
