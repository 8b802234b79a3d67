use vstd::prelude::*;
use crate::error::{ServiceError, ServiceResult};
use crate::text::{parse_unsigned, parses_within, unsigned_value};

verus! {

pub const DEFAULT_PORT: u16 = 3000;
pub const DEFAULT_MAX_DIMENSION: u32 = 4096;
pub const DEFAULT_SIZE: u32 = 1024;
pub const DEFAULT_MIN_DIMENSION: u32 = 32;
pub const PORT_MAX: u64 = 65535;
pub const DIMENSION_MAX: u64 = 4294967295;

/// Service settings: where to listen, where the store lives, and the bounds
/// of the images it produces.
pub struct Config {
    pub port: u16,
    pub redis_url: String,
    pub max_width: u32,
    pub max_height: u32,
    pub default_width: u32,
    pub default_height: u32,
    pub min_dimension: u32,
}

pub open spec fn default_redis_url() -> Seq<char> {
    "redis://localhost:6379"@
}

/// One resolved dimension: the requested value or the default, capped at the
/// maximum, then raised to the floor.
pub open spec fn resolve_dimension(requested: Option<u32>, default: u32, max: u32, min: u32) -> u32 {
    let v = match requested {
        Some(x) => x,
        None => default,
    };
    let capped = if v < max { v } else { max };
    if capped > min { capped } else { min }
}

impl Config {
    /// The floor lies under both maxima, so every dimension can be resolved
    /// into its range.
    pub open spec fn wf(&self) -> bool {
        self.min_dimension <= self.max_width && self.min_dimension <= self.max_height
    }

    pub open spec fn is_default(&self) -> bool {
        &&& self.port == DEFAULT_PORT
        &&& self.redis_url@ == default_redis_url()
        &&& self.max_width == DEFAULT_MAX_DIMENSION
        &&& self.max_height == DEFAULT_MAX_DIMENSION
        &&& self.default_width == DEFAULT_SIZE
        &&& self.default_height == DEFAULT_SIZE
        &&& self.min_dimension == DEFAULT_MIN_DIMENSION
    }

    /// Resolves the requested size into the configured bounds; an absent
    /// dimension takes its default.
    pub fn validate_dimensions(&self, width: Option<u32>, height: Option<u32>) -> (r: (u32, u32))
        ensures
            r.0 == resolve_dimension(width, self.default_width, self.max_width, self.min_dimension),
            r.1 == resolve_dimension(
                height,
                self.default_height,
                self.max_height,
                self.min_dimension,
            ),
    {
        let w = clamp_dimension(width, self.default_width, self.max_width, self.min_dimension);
        let h = clamp_dimension(height, self.default_height, self.max_height, self.min_dimension);
        (w, h)
    }

    /// The default settings with the given overrides applied: a port, a store
    /// address, and one maximum for both width and height. A port or maximum
    /// that is not an unsigned number of its type is a validation error.
    pub fn from_settings(
        port: Option<&str>,
        redis_url: Option<String>,
        max_dimension: Option<&str>,
    ) -> (r: ServiceResult<Config>)
        ensures
            r is Ok <==> (port matches Some(p) ==> parses_within(p@, PORT_MAX as nat)) && (
            max_dimension matches Some(m) ==> parses_within(m@, DIMENSION_MAX as nat)),
            r matches Err(e) ==> e is ValidationError,
            r matches Ok(c) ==> {
                &&& c.port == (match port {
                    Some(p) => unsigned_value(p@) as u16,
                    None => DEFAULT_PORT,
                })
                &&& c.redis_url@ == (match redis_url {
                    Some(u) => u@,
                    None => default_redis_url(),
                })
                &&& c.max_width == (match max_dimension {
                    Some(m) => unsigned_value(m@) as u32,
                    None => DEFAULT_MAX_DIMENSION,
                })
                &&& c.max_height == c.max_width
                &&& c.default_width == DEFAULT_SIZE
                &&& c.default_height == DEFAULT_SIZE
                &&& c.min_dimension == DEFAULT_MIN_DIMENSION
            },
    {
        let mut config = Config::default();
        if let Some(p) = port {
            match parse_unsigned(p, PORT_MAX) {
                Some(v) => {
                    config.port = v as u16;
                },
                None => {
                    return Err(ServiceError::ValidationError(String::from_str("Invalid PORT value")));
                },
            }
        }
        if let Some(u) = redis_url {
            config.redis_url = u;
        }
        if let Some(m) = max_dimension {
            match parse_unsigned(m, DIMENSION_MAX) {
                Some(v) => {
                    config.max_width = v as u32;
                    config.max_height = v as u32;
                },
                None => {
                    return Err(
                        ServiceError::ValidationError(String::from_str("Invalid MAX_DIMENSION value")),
                    );
                },
            }
        }
        Ok(config)
    }
}

fn clamp_dimension(requested: Option<u32>, default: u32, max: u32, min: u32) -> (r: u32)
    ensures
        r == resolve_dimension(requested, default, max, min),
{
    let v = match requested {
        Some(x) => x,
        None => default,
    };
    let capped = if v < max { v } else { max };
    if capped > min { capped } else { min }
}

impl Default for Config {
    fn default() -> (r: Config)
        ensures
            r.is_default(),
    {
        Config {
            port: DEFAULT_PORT,
            redis_url: String::from_str("redis://localhost:6379"),
            max_width: DEFAULT_MAX_DIMENSION,
            max_height: DEFAULT_MAX_DIMENSION,
            default_width: DEFAULT_SIZE,
            default_height: DEFAULT_SIZE,
            min_dimension: DEFAULT_MIN_DIMENSION,
        }
    }
}

/// Resolved dimensions always lie between the floor and the maximum of their
/// axis, and an absent dimension resolves as its configured default does.
pub proof fn lemma_resolved_dimensions_in_bounds(
    config: Config,
    width: Option<u32>,
    height: Option<u32>,
)
    requires
        config.wf(),
    ensures
        ({
            let w = resolve_dimension(width, config.default_width, config.max_width, config.min_dimension);
            let h = resolve_dimension(
                height,
                config.default_height,
                config.max_height,
                config.min_dimension,
            );
            &&& config.min_dimension <= w <= config.max_width
            &&& config.min_dimension <= h <= config.max_height
            &&& width is None ==> w == resolve_dimension(
                Some(config.default_width),
                config.default_width,
                config.max_width,
                config.min_dimension,
            )
            &&& height is None ==> h == resolve_dimension(
                Some(config.default_height),
                config.default_height,
                config.max_height,
                config.min_dimension,
            )
        }),
{
}

} // verus!
