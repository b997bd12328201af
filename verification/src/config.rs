use vstd::prelude::*;
use vstd::string::StringExecFns;

verus! {

/// The numeric components of a semantic version string, as semver reads it:
/// `Some((major, minor, patch))` for a well-formed version, `None` otherwise.
pub uninterp spec fn semver_parts(text: Seq<char>) -> Option<(u64, u64, u64)>;

/// Relies on semver::Version::parse: the `major`, `minor` and `patch` fields
/// of the parsed version, a function of the text alone; `Err` for text that
/// is not a valid semantic version.
#[verifier::external_body]
fn parse_version(text: &str) -> (r: Option<(u64, u64, u64)>)
    ensures
        r == semver_parts(text@),
{
    match semver::Version::parse(text) {
        Ok(v) => Some((v.major, v.minor, v.patch)),
        Err(_) => None,
    }
}

/// Identity and build facts of this game, shared by both peers: only
/// compatible builds should matchmake together, so the room name carries the
/// slug and version.
pub struct GameConfig {
    pub game_title: String,
    pub game_slug: String,
    pub debug_matchbox_server: String,
    pub release_matchbox_server: String,
    pub version_major: u64,
    pub version_minor: u64,
    pub version_patch: u64,
}

impl GameConfig {
    /// Builds the configuration from the game's names, its two signaling
    /// servers and its build version text; `None` when the version text is
    /// not a semantic version.
    pub fn new(
        game_title: String,
        game_slug: String,
        debug_matchbox_server: String,
        release_matchbox_server: String,
        version_text: &str,
    ) -> (r: Option<GameConfig>)
        ensures
            r is Some <==> semver_parts(version_text@) is Some,
            r is Some ==> ({
                let c = r->Some_0;
                let v = semver_parts(version_text@)->Some_0;
                &&& c.game_title@ == game_title@
                &&& c.game_slug@ == game_slug@
                &&& c.debug_matchbox_server@ == debug_matchbox_server@
                &&& c.release_matchbox_server@ == release_matchbox_server@
                &&& c.version_major == v.0
                &&& c.version_minor == v.1
                &&& c.version_patch == v.2
            }),
    {
        match parse_version(version_text) {
            Some(v) => Some(
                GameConfig {
                    game_title,
                    game_slug,
                    debug_matchbox_server,
                    release_matchbox_server,
                    version_major: v.0,
                    version_minor: v.1,
                    version_patch: v.2,
                },
            ),
            None => None,
        }
    }
}

/// The decimal digit for a value below ten.
pub open spec fn spec_digit(d: nat) -> char {
    if d == 0 {
        '0'
    } else if d == 1 {
        '1'
    } else if d == 2 {
        '2'
    } else if d == 3 {
        '3'
    } else if d == 4 {
        '4'
    } else if d == 5 {
        '5'
    } else if d == 6 {
        '6'
    } else if d == 7 {
        '7'
    } else if d == 8 {
        '8'
    } else {
        '9'
    }
}

/// The decimal digits of `n`, most significant first, no leading zeros
/// except for zero itself.
pub open spec fn spec_decimal(n: nat) -> Seq<char>
    decreases n,
{
    if n < 10 {
        seq![spec_digit(n)]
    } else {
        spec_decimal(n / 10).push(spec_digit(n % 10))
    }
}

fn append_digit(s: &mut String, d: u64)
    requires
        d < 10,
    ensures
        final(s)@ == old(s)@ + seq![spec_digit(d as nat)],
{
    match d {
        0 => {
            s.append("0");
            proof {
                reveal_strlit("0");
                assert(s@ =~= old(s)@ + seq![spec_digit(d as nat)]);
            }
        },
        1 => {
            s.append("1");
            proof {
                reveal_strlit("1");
                assert(s@ =~= old(s)@ + seq![spec_digit(d as nat)]);
            }
        },
        2 => {
            s.append("2");
            proof {
                reveal_strlit("2");
                assert(s@ =~= old(s)@ + seq![spec_digit(d as nat)]);
            }
        },
        3 => {
            s.append("3");
            proof {
                reveal_strlit("3");
                assert(s@ =~= old(s)@ + seq![spec_digit(d as nat)]);
            }
        },
        4 => {
            s.append("4");
            proof {
                reveal_strlit("4");
                assert(s@ =~= old(s)@ + seq![spec_digit(d as nat)]);
            }
        },
        5 => {
            s.append("5");
            proof {
                reveal_strlit("5");
                assert(s@ =~= old(s)@ + seq![spec_digit(d as nat)]);
            }
        },
        6 => {
            s.append("6");
            proof {
                reveal_strlit("6");
                assert(s@ =~= old(s)@ + seq![spec_digit(d as nat)]);
            }
        },
        7 => {
            s.append("7");
            proof {
                reveal_strlit("7");
                assert(s@ =~= old(s)@ + seq![spec_digit(d as nat)]);
            }
        },
        8 => {
            s.append("8");
            proof {
                reveal_strlit("8");
                assert(s@ =~= old(s)@ + seq![spec_digit(d as nat)]);
            }
        },
        _ => {
            s.append("9");
            proof {
                reveal_strlit("9");
                assert(s@ =~= old(s)@ + seq![spec_digit(d as nat)]);
            }
        },
    }
}

/// Appends the decimal form of `n`.
fn append_decimal(s: &mut String, n: u64)
    ensures
        final(s)@ == old(s)@ + spec_decimal(n as nat),
    decreases n,
{
    if n >= 10 {
        append_decimal(s, n / 10);
    }
    append_digit(s, n % 10);
    proof {
        assert(s@ =~= old(s)@ + spec_decimal(n as nat));
    }
}

/// The room a build matchmakes in: the host, then the game slug and the
/// major.minor version pair, asking the signaling server for exactly two
/// peers — only compatible builds meet.
pub open spec fn spec_room_url(host: Seq<char>, slug: Seq<char>, major: nat, minor: nat) -> Seq<
    char,
> {
    host + "/"@ + slug + "_"@ + spec_decimal(major) + "."@ + spec_decimal(minor) + "?next=2"@
}

/// Derives the room URL this build connects to.
pub fn room_url(config: &GameConfig, host: &str) -> (r: String)
    ensures
        r@ == spec_room_url(
            host@,
            config.game_slug@,
            config.version_major as nat,
            config.version_minor as nat,
        ),
{
    let mut s = String::new();
    s.append(host);
    s.append("/");
    s.append(config.game_slug.as_str());
    s.append("_");
    append_decimal(&mut s, config.version_major);
    s.append(".");
    append_decimal(&mut s, config.version_minor);
    s.append("?next=2");
    proof {
        assert(s@ =~= spec_room_url(
            host@,
            config.game_slug@,
            config.version_major as nat,
            config.version_minor as nat,
        ));
    }
    s
}

/// The signaling host to use: an override from the environment when the
/// operator set one, else the build's own debug or release default.
pub fn matchbox_host(config: &GameConfig, override_host: Option<String>, debug_build: bool) -> (r:
    String)
    ensures
        r@ == (match override_host {
            Some(h) => h@,
            None => if debug_build {
                config.debug_matchbox_server@
            } else {
                config.release_matchbox_server@
            },
        }),
{
    match override_host {
        Some(h) => h,
        None => {
            if debug_build {
                cloned(&config.debug_matchbox_server)
            } else {
                cloned(&config.release_matchbox_server)
            }
        },
    }
}

fn cloned(s: &String) -> (r: String)
    ensures
        r@ == s@,
{
    s.clone()
}

} // verus!
