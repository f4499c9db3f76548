//! Attaching probes to the tracepoints of a program: what the builder of
//! such probes decides. Loading and attaching the programs themselves is
//! done by its caller, who tells the builder of every link that was made.

use vstd::prelude::*;

use crate::probe::Probe;

verus! {

/// The program that is attached to a tracepoint of a program.
pub const USDT_PROGRAM: &'static str = "probe_usdt";

/// A program that runs with a probe, and the maps it shares.
#[derive(Debug, Clone, PartialEq, Eq)]
pub struct Hook {
    /// The name of the program.
    pub program: String,
    /// The maps it shares, each by name and file descriptor.
    pub maps: Vec<(String, i32)>,
}

/// Why a builder turned a request down.
#[derive(Debug, Clone, Copy, PartialEq, Eq, Structural)]
pub enum BuilderError {
    /// Probes on the tracepoints of a program take one hook at most.
    TooManyHooks,
    /// The probe is not one on a tracepoint of a program.
    WrongProbeType,
}

/// How far a builder is.
#[derive(Debug, Clone, Copy, PartialEq, Eq, Structural)]
pub enum BuilderState {
    /// Made, and not set up.
    Fresh,
    /// Set up. The number tells how many probes are attached.
    Initialized(usize),
    /// All probes detached.
    Detached,
}

/// What is to be attached for a probe: the program, by name, and the
/// tracepoint.
#[derive(Debug, Clone, PartialEq, Eq)]
pub struct UsdtAttach<'a> {
    pub program: &'static str,
    pub pid: i32,
    pub path: &'a str,
    pub provider: &'a str,
    pub name: &'a str,
}

/// The builder of probes on the tracepoints of programs.
pub struct UsdtBuilder {
    state: BuilderState,
    map_fds: Vec<(String, i32)>,
    hooks: Vec<Hook>,
}

impl UsdtBuilder {
    /// How far the builder is.
    pub closed spec fn state(&self) -> BuilderState {
        self.state
    }

    /// The maps that attached programs reuse.
    pub closed spec fn map_fds(&self) -> Seq<(String, i32)> {
        self.map_fds@
    }

    /// The hooks that run with the probes.
    pub closed spec fn hooks(&self) -> Seq<Hook> {
        self.hooks@
    }

    /// How far the builder is.
    pub fn current_state(&self) -> (r: BuilderState)
        ensures
            r == self.state(),
    {
        self.state
    }

    /// A fresh builder.
    pub fn new() -> (r: UsdtBuilder)
        ensures
            r.state() == BuilderState::Fresh,
            r.map_fds().len() == 0,
            r.hooks().len() == 0,
    {
        UsdtBuilder { state: BuilderState::Fresh, map_fds: Vec::new(), hooks: Vec::new() }
    }

    /// Sets the builder up: binds the shared maps and takes the hooks. More
    /// than one hook is turned down; the maps are bound even then.
    pub fn init(&mut self, map_fds: Vec<(String, i32)>, hooks: Vec<Hook>) -> (r: Result<
        (),
        BuilderError,
    >)
        ensures
            final(self).map_fds() == map_fds@,
            match r {
                Ok(()) => hooks@.len() <= 1 && final(self).hooks() == hooks@ && final(self).state()
                    == match old(self).state() {
                    BuilderState::Fresh => BuilderState::Initialized(0),
                    state => state,
                },
                Err(e) => hooks@.len() > 1 && e == BuilderError::TooManyHooks
                    && final(self).hooks() == old(self).hooks()
                    && final(self).state() == old(self).state(),
            },
    {
        self.map_fds = map_fds;
        if hooks.len() > 1 {
            return Err(BuilderError::TooManyHooks);
        }
        self.hooks = hooks;
        if let BuilderState::Fresh = self.state {
            self.state = BuilderState::Initialized(0);
        }
        Ok(())
    }

    /// The maps that the program of a probe reuses.
    pub fn shared_maps(&self) -> (r: &Vec<(String, i32)>)
        ensures
            r@ == self.map_fds(),
    {
        &self.map_fds
    }

    /// What is to be attached for `probe`. The builder must have been set
    /// up, and not been detached.
    pub fn attach<'a>(&self, probe: &'a Probe) -> (r: Result<UsdtAttach<'a>, BuilderError>)
        requires
            self.state() is Initialized,
        ensures
            match probe {
                Probe::Usdt(usdt) => r matches Ok(attach) && attach.program@ == USDT_PROGRAM@
                    && attach.pid == usdt.pid && attach.path@ == usdt.path@ && attach.provider@
                    == usdt.provider@ && attach.name@ == usdt.name@,
                _ => r matches Err(e) && e == BuilderError::WrongProbeType,
            },
    {
        let probe = match probe {
            Probe::Usdt(usdt) => usdt,
            _ => {
                return Err(BuilderError::WrongProbeType);
            },
        };
        Ok(
            UsdtAttach {
                program: USDT_PROGRAM,
                pid: probe.pid,
                path: probe.path.as_str(),
                provider: probe.provider.as_str(),
                name: probe.name.as_str(),
            },
        )
    }

    /// Takes note of a link: one more probe is attached.
    pub fn linked(&mut self)
        requires
            old(self).state() matches BuilderState::Initialized(links) && links < usize::MAX,
        ensures
            old(self).state() matches BuilderState::Initialized(links) && final(self).state()
                == BuilderState::Initialized((links + 1) as usize),
            final(self).map_fds() == old(self).map_fds(),
            final(self).hooks() == old(self).hooks(),
    {
        if let BuilderState::Initialized(links) = self.state {
            self.state = BuilderState::Initialized(links + 1);
        }
    }

    /// Detaches all probes: tells how many links are to be dropped. A
    /// second call finds none.
    pub fn detach(&mut self) -> (r: usize)
        ensures
            r == match old(self).state() {
                BuilderState::Initialized(links) => links,
                _ => 0,
            },
            final(self).state() == BuilderState::Detached,
            final(self).map_fds() == old(self).map_fds(),
            final(self).hooks() == old(self).hooks(),
    {
        let links = match self.state {
            BuilderState::Initialized(links) => links,
            _ => 0,
        };
        self.state = BuilderState::Detached;
        links
    }
}

} // verus!
