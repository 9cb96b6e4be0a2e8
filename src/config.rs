use vstd::prelude::*;
use vstd::string::*;

verus! {

/// Which cache a declared symbol's call site holds.
#[derive(Clone, Copy, Debug, PartialEq, Eq, Structural)]
pub enum CacheMode {
    /// Memoizing without synchronization; the default.
    Static,
    /// Memoizing behind a one-shot claim flag.
    StaticAtomic,
    /// No caching: resolve on every call.
    Disabled,
}

/// Why a list of attribute arguments was rejected.
#[derive(Clone, Copy, Debug, PartialEq, Eq, Structural)]
pub enum ArgumentError {
    /// A known key was given something other than a string literal.
    NotAString,
    /// A key outside `resolver`, `cache` and `module`.
    UnknownAttribute,
    /// A `cache` value outside the three mode names.
    UnknownCacheMode,
    /// No `resolver` was given.
    MissingResolver,
}

/// Whether two strings hold the same characters.
fn str_eq(a: &str, b: &str) -> (r: bool)
    ensures
        r == (a@ == b@),
{
    let n = a.unicode_len();
    let m = b.unicode_len();
    if n != m {
        return false;
    }
    let mut i: usize = 0;
    while i < n
        invariant
            n == a@.len(),
            m == b@.len(),
            n == m,
            i <= n,
            forall|j: int| 0 <= j < i ==> a@[j] == b@[j],
        decreases n - i,
    {
        if a.get_char(i) != b.get_char(i) {
            return false;
        }
        i += 1;
    }
    assert(a@ =~= b@);
    true
}

impl CacheMode {
    /// The mode a name selects, if any.
    pub open spec fn named(name: Seq<char>) -> Option<CacheMode> {
        if name == "static"@ {
            Some(CacheMode::Static)
        } else if name == "static-atomic"@ {
            Some(CacheMode::StaticAtomic)
        } else if name == "none"@ {
            Some(CacheMode::Disabled)
        } else {
            None
        }
    }

    /// Reads a mode from its name: `static`, `static-atomic` or `none`.
    pub fn from_name(name: &str) -> (r: Result<CacheMode, ArgumentError>)
        ensures
            r == (match CacheMode::named(name@) {
                Some(m) => Ok(m),
                None => Err(ArgumentError::UnknownCacheMode),
            }),
    {
        if str_eq(name, "static") {
            Ok(CacheMode::Static)
        } else if str_eq(name, "static-atomic") {
            Ok(CacheMode::StaticAtomic)
        } else if str_eq(name, "none") {
            Ok(CacheMode::Disabled)
        } else {
            Err(ArgumentError::UnknownCacheMode)
        }
    }

    /// The name of the cache type that a call site of this mode holds.
    pub fn cache_type(&self) -> (r: &'static str)
        ensures
            r@ == (match *self {
                CacheMode::Static => "StaticCache"@,
                CacheMode::StaticAtomic => "StaticAtomicCache"@,
                CacheMode::Disabled => "NoCache"@,
            }),
    {
        match *self {
            CacheMode::Static => "StaticCache",
            CacheMode::StaticAtomic => "StaticAtomicCache",
            CacheMode::Disabled => "NoCache",
        }
    }
}

impl ArgumentError {
    /// The diagnostic shown for this error.
    pub fn message(&self) -> (r: &'static str)
        ensures
            r@ == (match *self {
                ArgumentError::NotAString => "expected a string"@,
                ArgumentError::UnknownAttribute => "unknown attribute"@,
                ArgumentError::UnknownCacheMode => "expected one of the following values: static, static-atomic, none"@,
                ArgumentError::MissingResolver => "missing resolver = \"...\" attribute"@,
            }),
    {
        match *self {
            ArgumentError::NotAString => "expected a string",
            ArgumentError::UnknownAttribute => "unknown attribute",
            ArgumentError::UnknownCacheMode => "expected one of the following values: static, static-atomic, none",
            ArgumentError::MissingResolver => "missing resolver = \"...\" attribute",
        }
    }
}

/// One `key = value` attribute argument; `value` is `None` where the value is
/// not a string literal.
#[derive(Clone, Debug)]
pub struct Argument {
    pub key: String,
    pub value: Option<String>,
}

/// The settings that the arguments seen so far have given.
pub struct Settings {
    pub resolver: Option<Seq<char>>,
    pub cache: Option<CacheMode>,
    pub module: Option<Seq<char>>,
}

/// The characters of an optional string.
pub open spec fn opt_view(v: Option<String>) -> Option<Seq<char>> {
    match v {
        Some(s) => Some(s@),
        None => None,
    }
}

/// What one argument does to the settings: a later key overrides an earlier one.
pub open spec fn apply_argument(acc: Settings, a: Argument) -> Result<Settings, ArgumentError> {
    if a.key@ == "resolver"@ {
        match a.value {
            Some(v) => Ok(Settings { resolver: Some(v@), ..acc }),
            None => Err(ArgumentError::NotAString),
        }
    } else if a.key@ == "cache"@ {
        match a.value {
            Some(v) => match CacheMode::named(v@) {
                Some(m) => Ok(Settings { cache: Some(m), ..acc }),
                None => Err(ArgumentError::UnknownCacheMode),
            },
            None => Err(ArgumentError::NotAString),
        }
    } else if a.key@ == "module"@ {
        match a.value {
            Some(v) => Ok(Settings { module: Some(v@), ..acc }),
            None => Err(ArgumentError::NotAString),
        }
    } else {
        Err(ArgumentError::UnknownAttribute)
    }
}

/// The settings after the arguments in order; the first rejected argument decides the error.
pub open spec fn apply_arguments(args: Seq<Argument>) -> Result<Settings, ArgumentError>
    decreases args.len(),
{
    if args.len() == 0 {
        Ok(Settings { resolver: None, cache: None, module: None })
    } else {
        match apply_arguments(args.drop_last()) {
            Ok(acc) => apply_argument(acc, args.last()),
            Err(e) => Err(e),
        }
    }
}

/// The configuration of one lazily linked block.
#[derive(Clone, Debug)]
pub struct MacroArgs {
    /// The path of the resolver function, as written.
    pub resolver: String,
    pub cache: CacheMode,
    /// Passed to the resolver as it is.
    pub module: Option<String>,
}

impl MacroArgs {
    /// Reads the configuration from `key = "value"` arguments.
    ///
    /// The keys are `resolver` (required), `cache` (a mode name; `static` when
    /// absent) and `module`; each value must be a string literal.
    pub fn parse(args: &Vec<Argument>) -> (r: Result<MacroArgs, ArgumentError>)
        ensures
            match apply_arguments(args@) {
                Err(e) => r == Err::<MacroArgs, ArgumentError>(e),
                Ok(s) => match s.resolver {
                    None => r == Err::<MacroArgs, ArgumentError>(ArgumentError::MissingResolver),
                    Some(res) => r matches Ok(m) && m.resolver@ == res && m.cache == (match s.cache {
                        Some(c) => c,
                        None => CacheMode::Static,
                    }) && opt_view(m.module) == s.module,
                },
            },
    {
        let mut resolver: Option<String> = None;
        let mut cache: Option<CacheMode> = None;
        let mut module: Option<String> = None;
        let mut i: usize = 0;
        while i < args.len()
            invariant
                i <= args@.len(),
                apply_arguments(args@.take(i as int)) == Ok::<Settings, ArgumentError>(
                    Settings { resolver: opt_view(resolver), cache, module: opt_view(module) },
                ),
            decreases args.len() - i,
        {
            let a = &args[i];
            assert(args@.take(i + 1).drop_last() =~= args@.take(i as int));
            assert(args@.take(i + 1).last() == args@[i as int]);
            if str_eq(a.key.as_str(), "resolver") {
                match &a.value {
                    Some(v) => {
                        resolver = Some(v.clone());
                    },
                    None => {
                        proof {
                            lemma_rejected_prefix(args@, i as int + 1);
                        }
                        return Err(ArgumentError::NotAString);
                    },
                }
            } else if str_eq(a.key.as_str(), "cache") {
                match &a.value {
                    Some(v) => {
                        match CacheMode::from_name(v.as_str()) {
                            Ok(m) => {
                                cache = Some(m);
                            },
                            Err(e) => {
                                proof {
                                    lemma_rejected_prefix(args@, i as int + 1);
                                }
                                return Err(e);
                            },
                        }
                    },
                    None => {
                        proof {
                            lemma_rejected_prefix(args@, i as int + 1);
                        }
                        return Err(ArgumentError::NotAString);
                    },
                }
            } else if str_eq(a.key.as_str(), "module") {
                match &a.value {
                    Some(v) => {
                        module = Some(v.clone());
                    },
                    None => {
                        proof {
                            lemma_rejected_prefix(args@, i as int + 1);
                        }
                        return Err(ArgumentError::NotAString);
                    },
                }
            } else {
                proof {
                    lemma_rejected_prefix(args@, i as int + 1);
                }
                return Err(ArgumentError::UnknownAttribute);
            }
            i += 1;
        }
        assert(args@.take(args@.len() as int) =~= args@);
        match resolver {
            Some(res) => Ok(MacroArgs {
                resolver: res,
                cache: match cache {
                    Some(c) => c,
                    None => CacheMode::Static,
                },
                module,
            }),
            None => Err(ArgumentError::MissingResolver),
        }
    }
}

/// An error in the first `k` arguments is the error of the whole list.
proof fn lemma_rejected_prefix(args: Seq<Argument>, k: int)
    requires
        0 <= k <= args.len(),
        apply_arguments(args.take(k)) is Err,
    ensures
        apply_arguments(args) == apply_arguments(args.take(k)),
    decreases args.len() - k,
{
    if k < args.len() {
        assert(args.take(k + 1).drop_last() =~= args.take(k));
        lemma_rejected_prefix(args, k + 1);
    } else {
        assert(args.take(k) =~= args);
    }
}

} // verus!
