//! Which events are logged: a global minimum level, per-module overrides,
//! and two environment overrides.
use vstd::prelude::*;

use crate::level::LogLevel;
use crate::text::str_eq;

verus! {

/// A level set for one module path.
pub struct ModuleFilter {
    pub module: String,
    pub level: LogLevel,
}

/// The environment values that the filter consults; a variable that is not
/// set reads as the empty string.
#[derive(Debug, PartialEq, Eq)]
pub struct EnvOverrides {
    /// Overrides the configured global level when it names a level.
    pub level: String,
    /// Unless exactly `0`, the global level also holds for modules whose
    /// override would admit more.
    pub force: String,
}

/// The level set for module `m`; a later entry for the same module replaces
/// an earlier one.
pub open spec fn override_of(filters: Seq<ModuleFilter>, m: Seq<char>) -> Option<LogLevel>
    decreases filters.len(),
{
    if filters.len() == 0 {
        None
    } else if filters.last().module@ == m {
        Some(filters.last().level)
    } else {
        override_of(filters.drop_last(), m)
    }
}

pub struct LevelFilter {
    pub level: LogLevel,
    pub module_filters: Vec<ModuleFilter>,
}

impl LevelFilter {
    /// The level that holds when no module override applies: the level the
    /// environment names, else the configured one.
    pub open spec fn effective_level(self, env: EnvOverrides) -> LogLevel {
        match LogLevel::named(env.level@) {
            Some(l) => l,
            None => self.level,
        }
    }

    /// Whether an event of `level` from `module` is logged.
    pub open spec fn admits(self, module: Option<Seq<char>>, level: LogLevel, env: EnvOverrides) -> bool {
        if self.level == LogLevel::Off {
            false
        } else {
            let global = self.effective_level(env);
            let over = match module {
                Some(m) => override_of(self.module_filters@, m),
                None => None,
            };
            match over {
                Some(ml) => level.verbosity() <= ml.verbosity() && (global.verbosity()
                    < level.verbosity() ==> env.force@ == "0"@),
                None => level.verbosity() <= global.verbosity(),
            }
        }
    }

    pub fn new(level: LogLevel) -> (r: LevelFilter)
        ensures
            r.level == level,
            r.module_filters@ == Seq::<ModuleFilter>::empty(),
    {
        LevelFilter { level, module_filters: Vec::new() }
    }

    /// Sets the level of module `name`, replacing any level set for it before.
    pub fn module_filter(self, name: &str, level: LogLevel) -> (r: LevelFilter)
        ensures
            r.level == self.level,
            override_of(r.module_filters@, name@) == Some(level),
            forall|m: Seq<char>|
                m != name@ ==> override_of(r.module_filters@, m) == override_of(
                    self.module_filters@,
                    m,
                ),
    {
        let mut filters = self.module_filters;
        let ghost before = filters@;
        filters.push(ModuleFilter { module: String::from_str(name), level });
        assert(filters@.drop_last() =~= before);
        LevelFilter { level: self.level, module_filters: filters }
    }

    /// The level set for module `module`, if any.
    pub fn module_level(&self, module: &str) -> (r: Option<LogLevel>)
        ensures
            r == override_of(self.module_filters@, module@),
    {
        let mut i: usize = self.module_filters.len();
        assert(self.module_filters@.take(i as int) =~= self.module_filters@);
        while i > 0
            invariant
                i <= self.module_filters@.len(),
                override_of(self.module_filters@, module@) == override_of(
                    self.module_filters@.take(i as int),
                    module@,
                ),
            decreases i,
        {
            let f = &self.module_filters[i - 1];
            assert(self.module_filters@.take(i as int).drop_last() =~= self.module_filters@.take(
                i - 1,
            ));
            if str_eq(f.module.as_str(), module) {
                return Some(f.level);
            }
            i = i - 1;
        }
        None
    }

    /// Decides whether an event of `level` from `module` is logged:
    /// nothing is when the configured level is `Off`; a module with an
    /// override needs the event within it and, unless the force variable is
    /// `0`, within the global level too; any other event needs to be within
    /// the global level.
    pub fn is_enabled(&self, module: Option<&str>, level: LogLevel, env: &EnvOverrides) -> (r:
        bool)
        ensures
            r == self.admits(
                match module {
                    Some(m) => Some(m@),
                    None => None,
                },
                level,
                *env,
            ),
    {
        if self.level == LogLevel::Off {
            return false;
        }
        let global = match LogLevel::from_str(env.level.as_str()) {
            Some(l) => l,
            None => self.level,
        };
        let over = match module {
            Some(m) => self.module_level(m),
            None => None,
        };
        match over {
            Some(ml) => {
                if level.rank() > ml.rank() {
                    false
                } else if global.rank() < level.rank() {
                    str_eq(env.force.as_str(), "0")
                } else {
                    true
                }
            },
            None => level.rank() <= global.rank(),
        }
    }
}

} // verus!
