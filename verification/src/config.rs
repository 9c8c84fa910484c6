//! Configuration: the layered settings record (defaults, then the settings
//! file, then the environment, last wins) and the normalization of a PEM
//! public key into the line form the verifier's parser requires.

use vstd::prelude::*;

verus! {

use crate::representations::{ApiError, ErrorKind};

/// The agent's settings. The key is used as configured when `public_key`
/// is present; otherwise it is fetched from `public_key_url` by the
/// transport at startup.
#[derive(Debug, PartialEq)]
pub struct TagentConfig {
    pub root_directory: String,
    pub public_key_url: String,
    pub public_key: Option<String>,
    pub address: String,
    pub port: i16,
}

/// One layer of settings: a field that is present wins over the layer
/// below it.
#[derive(Debug)]
pub struct TagentConfigOverride {
    pub root_directory: Option<String>,
    pub public_key_url: Option<String>,
    pub public_key: Option<String>,
    pub address: Option<String>,
    pub port: Option<i16>,
}

impl TagentConfigOverride {
    /// A layer that overrides nothing.
    pub fn empty() -> (r: TagentConfigOverride)
        ensures
            r.root_directory is None,
            r.public_key_url is None,
            r.public_key is None,
            r.address is None,
            r.port is None,
    {
        TagentConfigOverride {
            root_directory: None,
            public_key_url: None,
            public_key: None,
            address: None,
            port: None,
        }
    }
}

impl TagentConfig {
    /// The built-in defaults. The served root defaults to the caller's
    /// home directory, which only the environment can name, so it arrives
    /// as an argument.
    pub fn new(home_dir: String) -> (c: TagentConfig)
        ensures
            c.root_directory == home_dir,
            c.public_key_url@ == "https://admin.tapis.io/v3/tenants/admin"@,
            c.public_key is None,
            c.address@ == "127.0.0.1"@,
            c.port == 8080,
    {
        TagentConfig {
            root_directory: home_dir,
            public_key_url: String::from_str("https://admin.tapis.io/v3/tenants/admin"),
            public_key: None,
            address: String::from_str("127.0.0.1"),
            port: 8080,
        }
    }

    /// Lay one layer over this configuration: a present field wins.
    pub fn layered(self, over: TagentConfigOverride) -> (c: TagentConfig)
        ensures
            c.root_directory == (match over.root_directory {
                Some(v) => v,
                None => self.root_directory,
            }),
            c.public_key_url == (match over.public_key_url {
                Some(v) => v,
                None => self.public_key_url,
            }),
            c.public_key == (match over.public_key {
                Some(v) => Some(v),
                None => self.public_key,
            }),
            c.address == (match over.address {
                Some(v) => v,
                None => self.address,
            }),
            c.port == (match over.port {
                Some(v) => v,
                None => self.port,
            }),
    {
        let TagentConfig { root_directory, public_key_url, public_key, address, port } = self;
        let root_directory = match over.root_directory {
            Some(v) => v,
            None => root_directory,
        };
        let public_key_url = match over.public_key_url {
            Some(v) => v,
            None => public_key_url,
        };
        let public_key = match over.public_key {
            Some(v) => Some(v),
            None => public_key,
        };
        let address = match over.address {
            Some(v) => v,
            None => address,
        };
        let port = match over.port {
            Some(v) => v,
            None => port,
        };
        TagentConfig { root_directory, public_key_url, public_key, address, port }
    }

    /// Build a configuration from its three sources, read in order:
    /// defaults, the settings file's values, the environment's values —
    /// the last source wins.
    pub fn from_sources_with_overrides(
        defaults: TagentConfig,
        file: TagentConfigOverride,
        env: TagentConfigOverride,
    ) -> (c: TagentConfig)
        ensures
            c.root_directory == (match env.root_directory {
                Some(v) => v,
                None => match file.root_directory {
                    Some(v) => v,
                    None => defaults.root_directory,
                },
            }),
            c.public_key_url == (match env.public_key_url {
                Some(v) => v,
                None => match file.public_key_url {
                    Some(v) => v,
                    None => defaults.public_key_url,
                },
            }),
            c.public_key == (match env.public_key {
                Some(v) => Some(v),
                None => match file.public_key {
                    Some(v) => Some(v),
                    None => defaults.public_key,
                },
            }),
            c.address == (match env.address {
                Some(v) => v,
                None => match file.address {
                    Some(v) => v,
                    None => defaults.address,
                },
            }),
            c.port == (match env.port {
                Some(v) => v,
                None => match file.port {
                    Some(v) => v,
                    None => defaults.port,
                },
            }),
    {
        defaults.layered(file).layered(env)
    }
}

/// Characters that survive the newline strip.
pub open spec fn not_newline() -> spec_fn(char) -> bool {
    |c: char| c != '\n'
}

/// A run of five `-` starting at `i`.
pub open spec fn five_dashes_at(s: Seq<char>, i: int) -> bool {
    &&& 0 <= i
    &&& i + 5 <= s.len()
    &&& forall|j: int| i <= j < i + 5 ==> s[j] == '-'
}

/// The least position at or after `start` where a dash run begins.
pub open spec fn first_dashes_from(s: Seq<char>, start: int) -> Option<int>
    decreases s.len() - start,
{
    if start < 0 || start + 5 > s.len() {
        None
    } else if five_dashes_at(s, start) {
        Some(start)
    } else {
        first_dashes_from(s, start + 1)
    }
}

/// The greatest position at or below `upper` where a dash run begins.
pub open spec fn last_dashes_upto(s: Seq<char>, upper: int) -> Option<int>
    decreases upper + 1,
{
    if upper < 0 {
        None
    } else if upper + 5 <= s.len() && five_dashes_at(s, upper) {
        Some(upper)
    } else {
        last_dashes_upto(s, upper - 1)
    }
}

/// Where the key's three parts are cut, on the newline-stripped text: the
/// opening delimiter block runs from the first dash run through the end of
/// the second, the closing block from the second-to-last dash run through
/// the end of the last, and the encoded body lies between them. `None`
/// where no such cuts exist.
pub open spec fn pem_parts(s: Seq<char>) -> Option<(int, int, int, int)> {
    match first_dashes_from(s, 0) {
        None => None,
        Some(i0) => match first_dashes_from(s, i0 + 5) {
            None => None,
            Some(i1) => match last_dashes_upto(s, s.len() - 5) {
                None => None,
                Some(i3) => match last_dashes_upto(s, i3 - 5) {
                    None => None,
                    Some(i2) => if i1 + 5 <= i2 {
                        Some((i0, i1, i2, i3))
                    } else {
                        None
                    },
                },
            },
        },
    }
}

/// The encoded body split into lines of 64 characters, each line closed by
/// a newline; the last line may be shorter, and an empty body yields no
/// line at all.
pub open spec fn pem_body_lines(mid: Seq<char>) -> Seq<char>
    decreases mid.len(),
{
    if mid.len() == 0 {
        Seq::empty()
    } else if mid.len() <= 64 {
        mid + "\n"@
    } else {
        mid.take(64) + "\n"@ + pem_body_lines(mid.skip(64))
    }
}

/// The normalized key: opening block, body lines of 64, closing block.
pub open spec fn pem_formatted(s: Seq<char>) -> Seq<char> {
    let cuts = pem_parts(s)->Some_0;
    s.subrange(cuts.0, cuts.1 + 5) + "\n"@ + pem_body_lines(s.subrange(cuts.1 + 5, cuts.2))
        + s.subrange(cuts.2, cuts.3 + 5)
}

/// Drop every newline of the input.
fn strip_newlines(s: &str) -> (r: String)
    ensures
        r@ == s@.filter(not_newline()),
{
    let n = s.unicode_len();
    let mut out = String::new();
    let mut i: usize = 0;
    while i < n
        invariant
            i <= n,
            n == s@.len(),
            out@ == s@.take(i as int).filter(not_newline()),
        decreases n - i,
    {
        if s.get_char(i) != '\n' {
            let piece = s.substring_char(i, i + 1);
            out.append(piece);
        }
        proof {
            crate::store::lemma_filter_take_step(s@, not_newline(), i as int);
            assert(s@.subrange(i as int, i + 1) =~= seq![s@[i as int]]);
            assert(s@.take(i as int).filter(not_newline()).push(s@[i as int]) =~= s@.take(
                i as int,
            ).filter(not_newline()) + seq![s@[i as int]]);
        }
        i = i + 1;
    }
    proof {
        assert(s@.take(n as int) =~= s@);
    }
    out
}

/// Whether a dash run begins at `i`.
fn has_dashes_at(s: &str, i: usize) -> (r: bool)
    requires
        i + 5 <= s@.len(),
        s@.len() <= usize::MAX,
    ensures
        r == five_dashes_at(s@, i as int),
{
    let r = s.get_char(i) == '-' && s.get_char(i + 1) == '-' && s.get_char(i + 2) == '-'
        && s.get_char(i + 3) == '-' && s.get_char(i + 4) == '-';
    proof {
        if r {
            assert forall|j: int| i <= j < i + 5 implies s@[j] == '-' by {
                assert(j == i || j == i + 1 || j == i + 2 || j == i + 3 || j == i + 4);
            }
        }
    }
    r
}

/// Find the least dash run at or after `start`.
fn find_first_dashes_from(s: &str, start: usize) -> (r: Option<usize>)
    ensures
        r matches Some(i) ==> first_dashes_from(s@, start as int) == Some(i as int) && start
            <= i && i + 5 <= s@.len() && five_dashes_at(s@, i as int),
        r is None ==> first_dashes_from(s@, start as int) is None,
{
    let n = s.unicode_len();
    if n < 5 || start > n - 5 {
        return None;
    }
    let mut i = start;
    while n - i >= 5
        invariant
            start <= i <= n,
            n == s@.len(),
            first_dashes_from(s@, start as int) == first_dashes_from(s@, i as int),
        decreases n - i,
    {
        if has_dashes_at(s, i) {
            return Some(i);
        }
        proof {
            assert(first_dashes_from(s@, i as int) == first_dashes_from(s@, i + 1 as int));
        }
        i = i + 1;
    }
    None
}

/// Find the greatest dash run at or below `upper`.
fn find_last_dashes_upto(s: &str, upper: usize) -> (r: Option<usize>)
    requires
        upper + 5 <= s@.len(),
        s@.len() <= usize::MAX,
    ensures
        r matches Some(i) ==> last_dashes_upto(s@, upper as int) == Some(i as int) && i <= upper
            && i + 5 <= s@.len() && five_dashes_at(s@, i as int),
        r is None ==> last_dashes_upto(s@, upper as int) is None,
{
    let mut i = upper + 1;
    while i > 0
        invariant
            i <= upper + 1,
            upper + 5 <= s@.len(),
            s@.len() <= usize::MAX,
            last_dashes_upto(s@, upper as int) == last_dashes_upto(s@, i - 1),
        decreases i,
    {
        i = i - 1;
        if has_dashes_at(s, i) {
            return Some(i);
        }
        proof {
            assert(last_dashes_upto(s@, i as int) == last_dashes_upto(s@, i - 1));
        }
    }
    None
}

/// Unrolling one 64-character line off the body.
proof fn lemma_pem_body_lines_step(mid: Seq<char>, pos: int)
    requires
        0 <= pos,
        pos + 64 < mid.len(),
    ensures
        pem_body_lines(mid.skip(pos)) == mid.subrange(pos, pos + 64) + "\n"@ + pem_body_lines(
            mid.skip(pos + 64),
        ),
{
    assert(mid.skip(pos).len() > 64);
    assert(mid.skip(pos).take(64) =~= mid.subrange(pos, pos + 64));
    assert(mid.skip(pos).skip(64) =~= mid.skip(pos + 64));
}

/// Re-break a PEM public key into the line form RFC 1421 asks for: the
/// delimiter blocks on lines of their own and the encoded body in lines of
/// exactly 64 characters, the last one shorter where need be. Newlines
/// already present are dropped first; text before the opening block or
/// after the closing block is dropped with them.
pub fn insert_line_breaks_pub_key(pub_key: &str) -> (r: Result<String, ApiError>)
    ensures
        r is Ok <==> pem_parts(pub_key@.filter(not_newline())) is Some,
        r matches Ok(out) ==> out@ == pem_formatted(pub_key@.filter(not_newline())),
        r matches Err(e) ==> e.kind == ErrorKind::InputInvalid,
{
    let stripped = strip_newlines(pub_key);
    let s = stripped.as_str();
    let n = s.unicode_len();
    let i0 = match find_first_dashes_from(s, 0) {
        Some(i) => i,
        None => {
            return Err(
                ApiError::new(ErrorKind::InputInvalid, String::from_str("Invalid public key")),
            );
        },
    };
    let i1 = match find_first_dashes_from(s, i0 + 5) {
        Some(i) => i,
        None => {
            return Err(
                ApiError::new(ErrorKind::InputInvalid, String::from_str("Invalid public key")),
            );
        },
    };
    let i3 = match find_last_dashes_upto(s, n - 5) {
        Some(i) => i,
        None => {
            return Err(
                ApiError::new(ErrorKind::InputInvalid, String::from_str("Invalid public key")),
            );
        },
    };
    if i3 < 5 {
        proof {
            assert(last_dashes_upto(s@, i3 - 5) is None);
        }
        return Err(
            ApiError::new(ErrorKind::InputInvalid, String::from_str("Invalid public key")),
        );
    }
    let i2 = match find_last_dashes_upto(s, i3 - 5) {
        Some(i) => i,
        None => {
            return Err(
                ApiError::new(ErrorKind::InputInvalid, String::from_str("Invalid public key")),
            );
        },
    };
    if i1 + 5 > i2 {
        return Err(
            ApiError::new(ErrorKind::InputInvalid, String::from_str("Invalid public key")),
        );
    }
    let mid = s.substring_char(i1 + 5, i2);
    let m = mid.unicode_len();
    let mut out = s.substring_char(i0, i1 + 5).to_owned();
    out.append("\n");
    let ghost mut done: Seq<char> = Seq::empty();
    let mut pos: usize = 0;
    proof {
        assert(mid@.skip(0) =~= mid@);
        assert(done + pem_body_lines(mid@) =~= pem_body_lines(mid@));
        assert(out@ =~= s@.subrange(i0 as int, i1 + 5) + "\n"@ + done);
    }
    while m - pos > 64
        invariant
            pos <= m,
            m == mid@.len(),
            out@ == s@.subrange(i0 as int, i1 + 5) + "\n"@ + done,
            pem_body_lines(mid@) == done + pem_body_lines(mid@.skip(pos as int)),
        decreases m - pos,
    {
        let piece = mid.substring_char(pos, pos + 64);
        out.append(piece);
        out.append("\n");
        proof {
            lemma_pem_body_lines_step(mid@, pos as int);
            done = done + mid@.subrange(pos as int, pos + 64) + "\n"@;
        }
        pos = pos + 64;
    }
    if pos < m {
        let piece = mid.substring_char(pos, m);
        out.append(piece);
        out.append("\n");
        proof {
            assert(mid@.skip(pos as int).len() == m - pos);
            assert(mid@.skip(pos as int) =~= mid@.subrange(pos as int, m as int));
            done = done + mid@.subrange(pos as int, m as int) + "\n"@;
        }
    } else {
        proof {
            assert(mid@.skip(pos as int) =~= Seq::<char>::empty());
        }
    }
    let tail = s.substring_char(i2, i3 + 5);
    out.append(tail);
    proof {
        assert(mid@ =~= s@.subrange(i1 + 5, i2 as int));
        assert(out@ =~= pem_formatted(pub_key@.filter(not_newline())));
    }
    Ok(out)
}

/// Parse RSA public-key PEM text into a verification key.
///
/// Relies on `jwt_simple`'s `RS256PublicKey::from_pem`, which returns `Err`
/// on text that does not hold a valid RSA public key.
#[verifier::external_body]
fn rs256_public_key_from_pem(pem: &str) -> Result<jwt_simple::algorithms::RS256PublicKey, String> {
    match jwt_simple::algorithms::RS256PublicKey::from_pem(pem) {
        Ok(key) => Ok(key),
        Err(error) => Err(format!("Invalid key: {}", error)),
    }
}

/// Normalize PEM text and parse it into the configured verification key.
pub fn public_key_from_pem(pem: &str) -> (r: Result<
    jwt_simple::algorithms::RS256PublicKey,
    ApiError,
>)
    ensures
        pem_parts(pem@.filter(not_newline())) is None ==> r is Err,
        r matches Err(e) ==> e.kind == ErrorKind::InputInvalid,
{
    let fixed = match insert_line_breaks_pub_key(pem) {
        Ok(v) => v,
        Err(e) => {
            return Err(e);
        },
    };
    match rs256_public_key_from_pem(fixed.as_str()) {
        Ok(key) => Ok(key),
        Err(message) => Err(ApiError::new(ErrorKind::InputInvalid, message)),
    }
}

} // verus!
