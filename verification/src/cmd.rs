use vstd::prelude::*;

verus! {

/// One mebibyte.
pub const M: usize = 1048576;

/// Default limit of the space compiled code is allocated in.
pub const DEFAULT_CODE_SPACE_LIMIT: usize = 134217728;

/// Default limit of the permanent space.
pub const DEFAULT_PERM_SPACE_LIMIT: usize = 67108864;

/// The garbage collectors that can be selected.
#[derive(Clone, Copy, Debug, PartialEq, Eq, Structural)]
pub enum CollectorName {
    Zero,
    Compact,
    Copy,
    Sweep,
    Swiper,
}

/// The compilers that can be selected: the classical baseline or the
/// self-hosted one.
#[derive(Clone, Copy, Debug, PartialEq, Eq, Structural)]
pub enum CompilerName {
    Cannon,
    Boots,
}

/// A memory amount in bytes, as given on the command line.
#[derive(Clone, Copy, Debug, PartialEq, Eq, Structural)]
pub struct MemSize(pub usize);

/// Relies on `num_cpus::get`: the number of CPUs of this machine; its
/// documentation promises at least one.
#[verifier::external_body]
fn available_cpus() -> (r: usize)
    ensures
        r >= 1,
{
    num_cpus::get()
}

/// The options that steer the virtual machine, as the command line hands
/// them in.
#[derive(Clone, Debug)]
pub struct Args {
    pub arg_file: String,
    pub flag_check: bool,
    pub flag_gc_events: bool,
    pub flag_gc_stress: bool,
    pub flag_gc_parallel_minor: bool,
    pub flag_gc_parallel_full: bool,
    pub flag_gc_parallel: bool,
    pub flag_gc_stats: bool,
    pub flag_gc_verbose: bool,
    pub flag_gc_verify: bool,
    pub flag_gc_worker: usize,
    pub flag_gc_young_size: Option<MemSize>,
    pub flag_gc_semi_ratio: Option<usize>,
    pub flag_gc: Option<CollectorName>,
    pub flag_compiler: Option<CompilerName>,
    pub flag_min_heap_size: Option<MemSize>,
    pub flag_max_heap_size: Option<MemSize>,
    pub flag_code_size: Option<MemSize>,
    pub flag_perm_size: Option<MemSize>,
    pub flag_disable_tlab: bool,
    pub flag_disable_barrier: bool,
    pub flag_omit_bounds_check: bool,
    pub flag_test_filter: Option<String>,
    pub flag_stdlib: Option<String>,
    pub flag_boots: Option<String>,
    pub flag_clear_regs: bool,
    pub cmd_test: bool,
}

impl Args {
    /// The requested minimum heap size, 32M when unset, never above the
    /// maximum.
    pub fn min_heap_size(&self) -> (r: usize)
        ensures
            r == (if self.min_heap_requested() <= self.max_heap_size_spec() {
                self.min_heap_requested()
            } else {
                self.max_heap_size_spec()
            }),
    {
        let min_heap_size = match self.flag_min_heap_size {
            Some(s) => s.0,
            None => 32 * M,
        };
        let max_heap_size = self.max_heap_size();

        if min_heap_size <= max_heap_size {
            min_heap_size
        } else {
            max_heap_size
        }
    }

    pub open spec fn min_heap_requested(self) -> usize {
        match self.flag_min_heap_size {
            Some(s) => s.0,
            None => (32 * M) as usize,
        }
    }

    /// The requested maximum heap size, 128M when unset, at least 1M.
    pub fn max_heap_size(&self) -> (r: usize)
        ensures
            r == self.max_heap_size_spec(),
    {
        let max_heap_size = match self.flag_max_heap_size {
            Some(s) => s.0,
            None => 128 * M,
        };

        if max_heap_size >= M {
            max_heap_size
        } else {
            M
        }
    }

    pub open spec fn max_heap_size_spec(self) -> usize {
        let requested = match self.flag_max_heap_size {
            Some(s) => s.0,
            None => (128 * M) as usize,
        };
        if requested >= M {
            requested
        } else {
            M as usize
        }
    }

    pub fn code_size(&self) -> (r: usize)
        ensures
            r == (match self.flag_code_size {
                Some(s) => s.0,
                None => DEFAULT_CODE_SPACE_LIMIT as usize,
            }),
    {
        match self.flag_code_size {
            Some(s) => s.0,
            None => DEFAULT_CODE_SPACE_LIMIT,
        }
    }

    pub fn perm_size(&self) -> (r: usize)
        ensures
            r == (match self.flag_perm_size {
                Some(s) => s.0,
                None => DEFAULT_PERM_SPACE_LIMIT as usize,
            }),
    {
        match self.flag_perm_size {
            Some(s) => s.0,
            None => DEFAULT_PERM_SPACE_LIMIT,
        }
    }

    /// The number of collector workers: the chosen count, or one per CPU up
    /// to eight.
    pub fn gc_workers(&self) -> (r: usize)
        ensures
            self.flag_gc_worker > 0 ==> r == self.flag_gc_worker,
            self.flag_gc_worker == 0 ==> 1 <= r <= 8,
    {
        if self.flag_gc_worker > 0 {
            self.flag_gc_worker
        } else {
            let cpus = available_cpus();
            if cpus <= 8 {
                cpus
            } else {
                8
            }
        }
    }

    pub fn young_size(&self) -> (r: Option<usize>)
        ensures
            r == (match self.flag_gc_young_size {
                Some(s) => Some(s.0),
                None => None::<usize>,
            }),
    {
        match self.flag_gc_young_size {
            Some(s) => Some(s.0),
            None => None,
        }
    }

    /// Without a fixed young size, the young generation is sized
    /// adaptively.
    pub fn young_appel(&self) -> (r: bool)
        ensures
            r == (self.flag_gc_young_size is None),
    {
        self.flag_gc_young_size.is_none()
    }

    pub fn parallel_minor(&self) -> (r: bool)
        ensures
            r == (self.flag_gc_parallel_minor || self.flag_gc_parallel),
    {
        self.flag_gc_parallel_minor || self.flag_gc_parallel
    }

    pub fn parallel_full(&self) -> (r: bool)
        ensures
            r == (self.flag_gc_parallel_full || self.flag_gc_parallel),
    {
        self.flag_gc_parallel_full || self.flag_gc_parallel
    }

    /// The selected compiler; the baseline is the default.
    pub fn compiler(&self) -> (r: CompilerName)
        ensures
            r == (match self.flag_compiler {
                Some(name) => name,
                None => CompilerName::Cannon,
            }),
    {
        match self.flag_compiler {
            Some(name) => name,
            None => CompilerName::Cannon,
        }
    }
}

} // verus!
