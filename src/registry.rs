use vstd::prelude::*;

verus! {

/// Output style of the console transcript.
#[derive(Clone, Copy, Debug, PartialEq, Eq, Structural)]
pub enum Format {
    Pretty,
    Terse,
    Json,
}

impl Default for Format {
    fn default() -> (r: Format)
        ensures
            r == Format::Pretty,
    {
        Format::Pretty
    }
}

/// The command-line options that change what a run does.
#[derive(Debug)]
pub struct Options {
    /// Tests whose name contains (or, with `filter_exact`, equals) this string are selected.
    pub filter: Option<String>,
    /// Match `filter` against the whole name rather than a part of it.
    pub filter_exact: bool,
    /// List the selected tests instead of running them.
    pub list: bool,
    /// Select the ignored tests only.
    pub ignored: bool,
    /// Select ignored and non-ignored tests alike.
    pub include_ignored: bool,
    pub format: Format,
}

impl Options {
    /// Options with no filter that select every test that is not ignored.
    pub fn new() -> (r: Options)
        ensures
            r.filter is None,
            !r.filter_exact,
            !r.list,
            !r.ignored,
            !r.include_ignored,
            r.format == Format::Pretty,
    {
        Options {
            filter: None,
            filter_exact: false,
            list: false,
            ignored: false,
            include_ignored: false,
            format: Format::Pretty,
        }
    }
}

/// What a test presents to the harness: its stable name and whether it is ignored.
#[derive(Debug)]
pub struct TestInfo {
    pub name: String,
    pub ignored: bool,
}

impl TestInfo {
    pub fn new(name: String, ignored: bool) -> (r: TestInfo)
        ensures
            r.name == name,
            r.ignored == ignored,
    {
        TestInfo { name, ignored }
    }

    pub fn copy(&self) -> (r: TestInfo)
        ensures
            r == *self,
    {
        TestInfo { name: self.name.clone(), ignored: self.ignored }
    }
}

/// The three kinds of test, told apart by the context that they run in.
#[derive(Clone, Copy, Debug, PartialEq, Eq, Structural)]
pub enum Category {
    Aptos,
    Admin,
    Network,
}

/// Which of the offered versions a swarm starts on.
#[derive(Clone, Copy, Debug, PartialEq, Eq, Structural)]
pub enum InitialVersion {
    Oldest,
    Newest,
}

/// A deployable software version; versions are ordered by `rank`.
#[derive(Debug)]
pub struct Version {
    pub rank: u64,
    pub name: String,
}

impl Version {
    pub fn copy(&self) -> (r: Version)
        ensures
            r == *self,
    {
        Version { rank: self.rank, name: self.name.clone() }
    }
}

/// The genesis a swarm starts from: a bundle of compiled modules, or a path to them.
#[derive(Debug)]
pub enum GenesisConfig {
    Bundle(Vec<Vec<u8>>),
    Path(String),
}

/// The registry of tests, with the size and versions of the swarm they run on.
pub struct ForgeConfig {
    pub aptos_tests: Vec<TestInfo>,
    pub admin_tests: Vec<TestInfo>,
    pub network_tests: Vec<TestInfo>,
    /// Validators spawned when the swarm is created; never zero.
    pub initial_validator_count: usize,
    /// Fullnodes spawned when the swarm is created.
    pub initial_fullnode_count: usize,
    pub initial_version: InitialVersion,
    pub genesis_config: Option<GenesisConfig>,
}

impl ForgeConfig {
    pub open spec fn wf(&self) -> bool {
        self.initial_validator_count >= 1
    }

    /// Every test, in the order in which a run executes them: Aptos, then Admin, then Network.
    pub open spec fn all_view(&self) -> Seq<TestInfo> {
        self.aptos_tests@ + self.admin_tests@ + self.network_tests@
    }

    /// The tests of one category.
    pub open spec fn tests_of(&self, c: Category) -> Seq<TestInfo> {
        match c {
            Category::Aptos => self.aptos_tests@,
            Category::Admin => self.admin_tests@,
            Category::Network => self.network_tests@,
        }
    }

    /// An empty registry: one validator, no fullnode, the oldest version, no genesis.
    pub fn new() -> (r: ForgeConfig)
        ensures
            r.wf(),
            r.aptos_tests@.len() == 0,
            r.admin_tests@.len() == 0,
            r.network_tests@.len() == 0,
            r.initial_validator_count == 1,
            r.initial_fullnode_count == 0,
            r.initial_version == InitialVersion::Oldest,
            r.genesis_config is None,
    {
        ForgeConfig {
            aptos_tests: Vec::new(),
            admin_tests: Vec::new(),
            network_tests: Vec::new(),
            initial_validator_count: 1,
            initial_fullnode_count: 0,
            initial_version: InitialVersion::Oldest,
            genesis_config: None,
        }
    }

    pub fn with_aptos_tests(self, aptos_tests: Vec<TestInfo>) -> (r: ForgeConfig)
        ensures
            r == (ForgeConfig { aptos_tests, ..self }),
    {
        ForgeConfig { aptos_tests, ..self }
    }

    pub fn with_admin_tests(self, admin_tests: Vec<TestInfo>) -> (r: ForgeConfig)
        ensures
            r == (ForgeConfig { admin_tests, ..self }),
    {
        ForgeConfig { admin_tests, ..self }
    }

    pub fn with_network_tests(self, network_tests: Vec<TestInfo>) -> (r: ForgeConfig)
        ensures
            r == (ForgeConfig { network_tests, ..self }),
    {
        ForgeConfig { network_tests, ..self }
    }

    pub fn with_initial_validator_count(self, initial_validator_count: usize) -> (r: ForgeConfig)
        requires
            initial_validator_count >= 1,
        ensures
            r == (ForgeConfig { initial_validator_count, ..self }),
    {
        ForgeConfig { initial_validator_count, ..self }
    }

    pub fn with_initial_fullnode_count(self, initial_fullnode_count: usize) -> (r: ForgeConfig)
        ensures
            r == (ForgeConfig { initial_fullnode_count, ..self }),
    {
        ForgeConfig { initial_fullnode_count, ..self }
    }

    pub fn with_initial_version(self, initial_version: InitialVersion) -> (r: ForgeConfig)
        ensures
            r == (ForgeConfig { initial_version, ..self }),
    {
        ForgeConfig { initial_version, ..self }
    }

    /// Starts the swarm from these compiled modules, replacing any earlier genesis.
    pub fn with_genesis_module_bundle(self, bundle: Vec<Vec<u8>>) -> (r: ForgeConfig)
        ensures
            r == (ForgeConfig { genesis_config: Some(GenesisConfig::Bundle(bundle)), ..self }),
    {
        ForgeConfig { genesis_config: Some(GenesisConfig::Bundle(bundle)), ..self }
    }

    /// Starts the swarm from the modules under this path, replacing any earlier genesis.
    pub fn with_genesis_modules_path(self, genesis_modules: String) -> (r: ForgeConfig)
        ensures
            r == (ForgeConfig { genesis_config: Some(GenesisConfig::Path(genesis_modules)), ..self }),
    {
        ForgeConfig { genesis_config: Some(GenesisConfig::Path(genesis_modules)), ..self }
    }

    /// The number of tests over the three categories, before any filter.
    pub fn number_of_tests(&self) -> (r: usize)
        requires
            self.all_view().len() <= usize::MAX,
        ensures
            r == self.all_view().len(),
    {
        self.aptos_tests.len() + self.admin_tests.len() + self.network_tests.len()
    }

    /// Whether the tests over the three categories number fewer than `usize::MAX`,
    /// as a run of them needs.
    pub fn count_fits(&self) -> (r: bool)
        ensures
            r == (self.all_view().len() < usize::MAX),
    {
        let total: u128 = self.aptos_tests.len() as u128 + self.admin_tests.len() as u128
            + self.network_tests.len() as u128;
        total < usize::MAX as u128
    }

    /// Every test, in execution order: Aptos, then Admin, then Network.
    pub fn all_tests(&self) -> (r: Vec<TestInfo>)
        ensures
            r@ == self.all_view(),
    {
        let mut r: Vec<TestInfo> = Vec::new();
        append_copies(&mut r, &self.aptos_tests);
        append_copies(&mut r, &self.admin_tests);
        append_copies(&mut r, &self.network_tests);
        r
    }
}

impl Default for ForgeConfig {
    /// The empty registry of `ForgeConfig::new`.
    fn default() -> (r: ForgeConfig)
        ensures
            r.wf(),
            r.aptos_tests@.len() == 0,
            r.admin_tests@.len() == 0,
            r.network_tests@.len() == 0,
            r.initial_validator_count == 1,
            r.initial_fullnode_count == 0,
            r.initial_version == InitialVersion::Oldest,
            r.genesis_config is None,
    {
        ForgeConfig::new()
    }
}

/// Appends a copy of each of `src` to `dst`, in order.
fn append_copies(dst: &mut Vec<TestInfo>, src: &Vec<TestInfo>)
    ensures
        final(dst)@ == old(dst)@ + src@,
{
    let ghost start = dst@;
    let mut i: usize = 0;
    while i < src.len()
        invariant
            i <= src@.len(),
            dst@ == start + src@.subrange(0, i as int),
        decreases src@.len() - i,
    {
        dst.push(src[i].copy());
        i += 1;
        assert(start + src@.subrange(0, i as int) =~= (start + src@.subrange(0, i - 1)).push(src@[i - 1]));
    }
    assert(src@.subrange(0, i as int) =~= src@);
}

} // verus!
