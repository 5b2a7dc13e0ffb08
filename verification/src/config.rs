//! The responder's configuration: its value, its canonical TOML text, and
//! the codec between them.
//!
//! The configuration is four tables of string values — paths, addresses and
//! URLs.  [`Config::to_toml`] renders the canonical text and [`Config::read`]
//! parses it back; the contract of `read` states the round-trip exactly:
//! every rendering of a valid configuration parses back to it, and whatever
//! parses successfully re-renders to the very input.  The value space is
//! printable ASCII without the quote and backslash characters; `is_valid`
//! checks membership.
use vstd::prelude::*;
use vstd::string::StrSliceExecFns;
use vstd::string::StringExecFns;

verus! {

/// Where persisted state and wallets live.
#[derive(Clone, Debug)]
pub struct Data {
    pub dir: String,
}

/// The peer-to-peer listen address.
#[derive(Clone, Debug)]
pub struct Network {
    pub listen: String,
}

/// The Bitcoin indexer endpoint.
#[derive(Clone, Debug)]
pub struct Bitcoin {
    pub electrum_rpc_url: String,
}

/// The Monero wallet RPC endpoint and wallet identity.
#[derive(Clone, Debug)]
pub struct Monero {
    pub wallet_rpc_url: String,
    pub wallet_name: String,
    pub wallet_password: String,
}

/// The full configuration surface.
#[derive(Clone, Debug)]
pub struct Config {
    pub data: Data,
    pub network: Network,
    pub bitcoin: Bitcoin,
    pub monero: Monero,
}

/// No configuration file exists yet: initial setup is required.
#[derive(Clone, Copy, Debug, PartialEq, Eq, Structural)]
pub struct ConfigNotInitialized {}

/// The text is not the canonical rendering of any configuration.
#[derive(Clone, Copy, Debug, PartialEq, Eq, Structural)]
pub struct ConfigError {}

/// The configuration's six values, as character sequences.
pub struct ConfigView {
    pub dir: Seq<char>,
    pub listen: Seq<char>,
    pub electrum_rpc_url: Seq<char>,
    pub wallet_rpc_url: Seq<char>,
    pub wallet_name: Seq<char>,
    pub wallet_password: Seq<char>,
}

impl View for Config {
    type V = ConfigView;

    open spec fn view(&self) -> ConfigView {
        ConfigView {
            dir: self.data.dir@,
            listen: self.network.listen@,
            electrum_rpc_url: self.bitcoin.electrum_rpc_url@,
            wallet_rpc_url: self.monero.wallet_rpc_url@,
            wallet_name: self.monero.wallet_name@,
            wallet_password: self.monero.wallet_password@,
        }
    }
}

/// A value the codec round-trips: printable ASCII, without the quote and
/// backslash characters.
pub open spec fn value_ok(s: Seq<char>) -> bool {
    forall|i: int| 0 <= i < s.len() ==> {
        &&& 0x20 <= (#[trigger] s[i]) as u32 <= 0x7e
        &&& s[i] != '"'
        &&& s[i] != '\\'
    }
}

/// All six values lie in the codec's value space.
pub open spec fn view_ok(v: ConfigView) -> bool {
    &&& value_ok(v.dir)
    &&& value_ok(v.listen)
    &&& value_ok(v.electrum_rpc_url)
    &&& value_ok(v.wallet_rpc_url)
    &&& value_ok(v.wallet_name)
    &&& value_ok(v.wallet_password)
}

/// The literal text between values in the canonical rendering.
pub open spec fn lit1() -> Seq<char> {
    "[data]\ndir = \""@
}

pub open spec fn lit2() -> Seq<char> {
    "\"\n\n[network]\nlisten = \""@
}

pub open spec fn lit3() -> Seq<char> {
    "\"\n\n[bitcoin]\nelectrum_rpc_url = \""@
}

pub open spec fn lit4() -> Seq<char> {
    "\"\n\n[monero]\nwallet_rpc_url = \""@
}

pub open spec fn lit5() -> Seq<char> {
    "\"\nwallet_name = \""@
}

pub open spec fn lit6() -> Seq<char> {
    "\"\nwallet_password = \""@
}

pub open spec fn lit7() -> Seq<char> {
    "\"\n"@
}

/// The canonical TOML rendering of a configuration.
pub open spec fn encode_spec(v: ConfigView) -> Seq<char> {
    lit1() + v.dir + lit2() + v.listen + lit3() + v.electrum_rpc_url + lit4() + v.wallet_rpc_url
        + lit5() + v.wallet_name + lit6() + v.wallet_password + lit7()
}

impl Config {
    /// Whether every value lies in the codec's value space.
    pub fn is_valid(&self) -> (r: bool)
        ensures
            r == view_ok(self@),
    {
        value_ok_exec(self.data.dir.as_str()) && value_ok_exec(self.network.listen.as_str())
            && value_ok_exec(self.bitcoin.electrum_rpc_url.as_str()) && value_ok_exec(
            self.monero.wallet_rpc_url.as_str(),
        ) && value_ok_exec(self.monero.wallet_name.as_str()) && value_ok_exec(
            self.monero.wallet_password.as_str(),
        )
    }

    /// Render the canonical TOML text of this configuration.
    pub fn to_toml(&self) -> (r: String)
        ensures
            r@ == encode_spec(self@),
    {
        let mut out = String::new();
        out.append("[data]\ndir = \"");
        out.append(self.data.dir.as_str());
        out.append("\"\n\n[network]\nlisten = \"");
        out.append(self.network.listen.as_str());
        out.append("\"\n\n[bitcoin]\nelectrum_rpc_url = \"");
        out.append(self.bitcoin.electrum_rpc_url.as_str());
        out.append("\"\n\n[monero]\nwallet_rpc_url = \"");
        out.append(self.monero.wallet_rpc_url.as_str());
        out.append("\"\nwallet_name = \"");
        out.append(self.monero.wallet_name.as_str());
        out.append("\"\nwallet_password = \"");
        out.append(self.monero.wallet_password.as_str());
        out.append("\"\n");
        out
    }

    /// Parse a configuration from its canonical TOML text.
    ///
    /// The contract pins the codec both ways: text that is the rendering of
    /// a valid configuration parses back to exactly that configuration, and
    /// any successfully parsed configuration re-renders to the input text.
    #[verifier::rlimit(100)]
    #[verifier::spinoff_prover]
    pub fn read(s: &str) -> (r: Result<Config, ConfigError>)
        ensures
            r is Ok ==> s@ == encode_spec(r->Ok_0@),
            forall|v: ConfigView| view_ok(v) && s@ == #[trigger] encode_spec(v) ==> r is Ok
                && r->Ok_0@ == v,
    {
        let i1 = match expect_lit(s, 0, "[data]\ndir = \"") {
            Some(i) => i,
            None => {
                proof {
                    lemma_fail_lit1(s@);
                }
                return Result::Err(ConfigError {});
            },
        };
        let (dir, j1) = match parse_value(s, i1) {
            Some(p) => p,
            None => {
                proof {
                    lemma_fail_val1(s@);
                }
                return Result::Err(ConfigError {});
            },
        };
        let i2 = match expect_lit(s, j1, "\"\n\n[network]\nlisten = \"") {
            Some(i) => i,
            None => {
                proof {
                    lemma_fail_lit2(s@, j1 as int);
                }
                return Result::Err(ConfigError {});
            },
        };
        let (listen, j2) = match parse_value(s, i2) {
            Some(p) => p,
            None => {
                proof {
                    lemma_fail_val2(s@, j1 as int);
                }
                return Result::Err(ConfigError {});
            },
        };
        let i3 = match expect_lit(s, j2, "\"\n\n[bitcoin]\nelectrum_rpc_url = \"") {
            Some(i) => i,
            None => {
                proof {
                    lemma_fail_lit3(s@, j1 as int, j2 as int);
                }
                return Result::Err(ConfigError {});
            },
        };
        let (electrum_rpc_url, j3) = match parse_value(s, i3) {
            Some(p) => p,
            None => {
                proof {
                    lemma_fail_val3(s@, j1 as int, j2 as int);
                }
                return Result::Err(ConfigError {});
            },
        };
        let i4 = match expect_lit(s, j3, "\"\n\n[monero]\nwallet_rpc_url = \"") {
            Some(i) => i,
            None => {
                proof {
                    lemma_fail_lit4(s@, j1 as int, j2 as int, j3 as int);
                }
                return Result::Err(ConfigError {});
            },
        };
        let (wallet_rpc_url, j4) = match parse_value(s, i4) {
            Some(p) => p,
            None => {
                proof {
                    lemma_fail_val4(s@, j1 as int, j2 as int, j3 as int);
                }
                return Result::Err(ConfigError {});
            },
        };
        let i5 = match expect_lit(s, j4, "\"\nwallet_name = \"") {
            Some(i) => i,
            None => {
                proof {
                    lemma_fail_lit5(s@, j1 as int, j2 as int, j3 as int, j4 as int);
                }
                return Result::Err(ConfigError {});
            },
        };
        let (wallet_name, j5) = match parse_value(s, i5) {
            Some(p) => p,
            None => {
                proof {
                    lemma_fail_val5(s@, j1 as int, j2 as int, j3 as int, j4 as int);
                }
                return Result::Err(ConfigError {});
            },
        };
        let i6 = match expect_lit(s, j5, "\"\nwallet_password = \"") {
            Some(i) => i,
            None => {
                proof {
                    lemma_fail_lit6(s@, j1 as int, j2 as int, j3 as int, j4 as int, j5 as int);
                }
                return Result::Err(ConfigError {});
            },
        };
        let (wallet_password, j6) = match parse_value(s, i6) {
            Some(p) => p,
            None => {
                proof {
                    lemma_fail_val6(s@, j1 as int, j2 as int, j3 as int, j4 as int, j5 as int);
                }
                return Result::Err(ConfigError {});
            },
        };
        let tail_matched = match expect_lit(s, j6, "\"\n") {
            Some(i) => i == s.unicode_len(),
            None => false,
        };
        if !tail_matched {
            proof {
                lemma_fail_end(s@, j1 as int, j2 as int, j3 as int, j4 as int, j5 as int, j6 as int);
            }
            return Result::Err(ConfigError {});
        }
        let config = Config {
            data: Data { dir },
            network: Network { listen },
            bitcoin: Bitcoin { electrum_rpc_url },
            monero: Monero { wallet_rpc_url, wallet_name, wallet_password },
        };
        let encoded = config.to_toml();
        if !(encoded == s.to_owned()) {
            proof {
                assert forall|v: ConfigView| !(view_ok(v) && s@ == #[trigger] encode_spec(v)) by {
                    if view_ok(v) && s@ == encode_spec(v) {
                        lemma_pins(
                            s@,
                            v,
                            j1 as int,
                            j2 as int,
                            j3 as int,
                            j4 as int,
                            j5 as int,
                            j6 as int,
                        );
                        assert(config@ == v);
                        assert(encoded@ == s@);
                    }
                }
            }
            return Result::Err(ConfigError {});
        }
        proof {
            assert(s@ == encode_spec(config@));
            assert forall|v: ConfigView| view_ok(v) && s@ == #[trigger] encode_spec(v) implies
                config@ == v by {
                lemma_pins(
                    s@,
                    v,
                    j1 as int,
                    j2 as int,
                    j3 as int,
                    j4 as int,
                    j5 as int,
                    j6 as int,
                );
            }
        }
        Result::Ok(config)
    }
}

/// The parser's knowledge after one value segment: the literal sits at
/// `start`, the value runs to position `j`, which holds the first quote
/// past the literal.
pub open spec fn seg_ok(s: Seq<char>, start: int, lit: Seq<char>, j: int) -> bool {
    &&& 0 <= start
    &&& start + lit.len() <= s.len()
    &&& s.subrange(start, start + lit.len()) == lit
    &&& start + lit.len() <= j < s.len()
    &&& s[j] == '"'
    &&& forall|k: int| start + lit.len() <= k < j ==> s[k] != '"'
}

impl PartialEq for Data {
    fn eq(&self, other: &Data) -> bool {
        self.dir == other.dir
    }
}

impl vstd::std_specs::cmp::PartialEqSpecImpl for Data {
    open spec fn obeys_eq_spec() -> bool {
        true
    }

    open spec fn eq_spec(&self, other: &Data) -> bool {
        self.dir@ == other.dir@
    }
}

impl PartialEq for Network {
    fn eq(&self, other: &Network) -> bool {
        self.listen == other.listen
    }
}

impl vstd::std_specs::cmp::PartialEqSpecImpl for Network {
    open spec fn obeys_eq_spec() -> bool {
        true
    }

    open spec fn eq_spec(&self, other: &Network) -> bool {
        self.listen@ == other.listen@
    }
}

impl PartialEq for Bitcoin {
    fn eq(&self, other: &Bitcoin) -> bool {
        self.electrum_rpc_url == other.electrum_rpc_url
    }
}

impl vstd::std_specs::cmp::PartialEqSpecImpl for Bitcoin {
    open spec fn obeys_eq_spec() -> bool {
        true
    }

    open spec fn eq_spec(&self, other: &Bitcoin) -> bool {
        self.electrum_rpc_url@ == other.electrum_rpc_url@
    }
}

impl PartialEq for Monero {
    fn eq(&self, other: &Monero) -> bool {
        self.wallet_rpc_url == other.wallet_rpc_url && self.wallet_name == other.wallet_name
            && self.wallet_password == other.wallet_password
    }
}

impl vstd::std_specs::cmp::PartialEqSpecImpl for Monero {
    open spec fn obeys_eq_spec() -> bool {
        true
    }

    open spec fn eq_spec(&self, other: &Monero) -> bool {
        &&& self.wallet_rpc_url@ == other.wallet_rpc_url@
        &&& self.wallet_name@ == other.wallet_name@
        &&& self.wallet_password@ == other.wallet_password@
    }
}

impl PartialEq for Config {
    fn eq(&self, other: &Config) -> bool {
        self.data == other.data && self.network == other.network && self.bitcoin == other.bitcoin
            && self.monero == other.monero
    }
}

impl vstd::std_specs::cmp::PartialEqSpecImpl for Config {
    open spec fn obeys_eq_spec() -> bool {
        true
    }

    open spec fn eq_spec(&self, other: &Config) -> bool {
        self@ == other@
    }
}

/// Whether every character of `s` lies in the codec's value space.
fn value_ok_exec(s: &str) -> (r: bool)
    ensures
        r == value_ok(s@),
{
    let n = s.unicode_len();
    let mut i: usize = 0;
    while i < n
        invariant
            n == s@.len(),
            i <= n,
            forall|k: int| 0 <= k < i ==> {
                &&& 0x20 <= (#[trigger] s@[k]) as u32 <= 0x7e
                &&& s@[k] != '"'
                &&& s@[k] != '\\'
            },
        decreases n - i,
    {
        let c = s.get_char(i);
        if !(0x20 <= c as u32 && c as u32 <= 0x7e && c != '"' && c != '\\') {
            return false;
        }
        i = i + 1;
    }
    true
}

/// Match the literal `lit` in `s` at position `i`: `Some` of the position
/// past it exactly when `s` carries `lit` there.
fn expect_lit(s: &str, i: usize, lit: &str) -> (r: Option<usize>)
    ensures
        match r {
            Some(j) => {
                &&& j == i + lit@.len()
                &&& j <= s@.len()
                &&& s@.subrange(i as int, j as int) == lit@
            },
            None => !(i + lit@.len() <= s@.len() && s@.subrange(
                i as int,
                i as int + lit@.len() as int,
            ) == lit@),
        },
{
    let n = s.unicode_len();
    let m = lit.unicode_len();
    if n < i || n - i < m {
        proof {
            assert(!(i + lit@.len() <= s@.len()));
        }
        return None;
    }
    let mut k: usize = 0;
    while k < m
        invariant
            n == s@.len(),
            m == lit@.len(),
            i + m <= n,
            k <= m,
            forall|t: int| 0 <= t < k ==> s@[i + t] == lit@[t],
        decreases m - k,
    {
        if s.get_char(i + k) != lit.get_char(k) {
            proof {
                assert(s@.subrange(i as int, i as int + lit@.len() as int)[k as int]
                    != lit@[k as int]);
            }
            return None;
        }
        k = k + 1;
    }
    proof {
        assert(s@.subrange(i as int, i as int + lit@.len() as int) =~= lit@);
    }
    Some(i + m)
}

/// Scan a value at position `i`: the characters up to the next quote.
/// `Some((value, j))` exactly when a quote follows at some position `j`,
/// the first one at or after `i`; the value is everything in between.
fn parse_value(s: &str, i: usize) -> (r: Option<(String, usize)>)
    ensures
        match r {
            Some(p) => {
                &&& i <= p.1 < s@.len()
                &&& s@[p.1 as int] == '"'
                &&& p.0@ == s@.subrange(i as int, p.1 as int)
                &&& forall|k: int| i <= k < p.1 ==> s@[k] != '"'
            },
            None => forall|k: int| i <= k < s@.len() ==> s@[k] != '"',
        },
{
    let n = s.unicode_len();
    if n <= i {
        return None;
    }
    let mut j: usize = i;
    while j < n
        invariant
            n == s@.len(),
            i <= j <= n,
            forall|k: int| i <= k < j ==> s@[k] != '"',
        decreases n - j,
    {
        if s.get_char(j) == '"' {
            let value = s.substring_char(i, j).to_owned();
            return Some((value, j));
        }
        j = j + 1;
    }
    None
}

/// Where each piece of the canonical rendering of `v` sits: the literals at
/// their computed offsets, a quote directly after each value, and no quote
/// inside any value.  These facts force the parser down the success path on
/// any rendering of a valid view, and pin each parsed value.
proof fn lemma_image_shape(s: Seq<char>, v: ConfigView)
    requires
        view_ok(v),
        s == encode_spec(v),
    ensures
        ({
            let p1 = lit1().len() as int;
            let q1 = p1 + v.dir.len();
            let p2 = q1 + lit2().len();
            let q2 = p2 + v.listen.len();
            let p3 = q2 + lit3().len();
            let q3 = p3 + v.electrum_rpc_url.len();
            let p4 = q3 + lit4().len();
            let q4 = p4 + v.wallet_rpc_url.len();
            let p5 = q4 + lit5().len();
            let q5 = p5 + v.wallet_name.len();
            let p6 = q5 + lit6().len();
            let q6 = p6 + v.wallet_password.len();
            &&& s.len() == q6 + lit7().len()
            &&& s.subrange(0, p1) == lit1()
            &&& s.subrange(p1, q1) == v.dir
            &&& s.subrange(q1, p2) == lit2()
            &&& s.subrange(p2, q2) == v.listen
            &&& s.subrange(q2, p3) == lit3()
            &&& s.subrange(p3, q3) == v.electrum_rpc_url
            &&& s.subrange(q3, p4) == lit4()
            &&& s.subrange(p4, q4) == v.wallet_rpc_url
            &&& s.subrange(q4, p5) == lit5()
            &&& s.subrange(p5, q5) == v.wallet_name
            &&& s.subrange(q5, p6) == lit6()
            &&& s.subrange(p6, q6) == v.wallet_password
            &&& s.subrange(q6, s.len() as int) == lit7()
            &&& (forall|k: int| p1 <= k < q1 ==> s[k] != '"')
            &&& (forall|k: int| p2 <= k < q2 ==> s[k] != '"')
            &&& (forall|k: int| p3 <= k < q3 ==> s[k] != '"')
            &&& (forall|k: int| p4 <= k < q4 ==> s[k] != '"')
            &&& (forall|k: int| p5 <= k < q5 ==> s[k] != '"')
            &&& (forall|k: int| p6 <= k < q6 ==> s[k] != '"')
            &&& s[q1] == '"'
            &&& s[q2] == '"'
            &&& s[q3] == '"'
            &&& s[q4] == '"'
            &&& s[q5] == '"'
            &&& s[q6] == '"'
            &&& p1 <= q1 < p2 <= q2 < p3 <= q3 < p4 <= q4 < p5 <= q5 < p6 <= q6 < s.len()
        }),
{
    reveal_strlit("[data]\ndir = \"");
    reveal_strlit("\"\n\n[network]\nlisten = \"");
    reveal_strlit("\"\n\n[bitcoin]\nelectrum_rpc_url = \"");
    reveal_strlit("\"\n\n[monero]\nwallet_rpc_url = \"");
    reveal_strlit("\"\nwallet_name = \"");
    reveal_strlit("\"\nwallet_password = \"");
    reveal_strlit("\"\n");
    let p1 = lit1().len() as int;
    let q1 = p1 + v.dir.len();
    let p2 = q1 + lit2().len();
    let q2 = p2 + v.listen.len();
    let p3 = q2 + lit3().len();
    let q3 = p3 + v.electrum_rpc_url.len();
    let p4 = q3 + lit4().len();
    let q4 = p4 + v.wallet_rpc_url.len();
    let p5 = q4 + lit5().len();
    let q5 = p5 + v.wallet_name.len();
    let p6 = q5 + lit6().len();
    let q6 = p6 + v.wallet_password.len();
    assert(s.subrange(0, p1) =~= lit1());
    assert(s.subrange(p1, q1) =~= v.dir);
    assert(s.subrange(q1, p2) =~= lit2());
    assert(s.subrange(p2, q2) =~= v.listen);
    assert(s.subrange(q2, p3) =~= lit3());
    assert(s.subrange(p3, q3) =~= v.electrum_rpc_url);
    assert(s.subrange(q3, p4) =~= lit4());
    assert(s.subrange(p4, q4) =~= v.wallet_rpc_url);
    assert(s.subrange(q4, p5) =~= lit5());
    assert(s.subrange(p5, q5) =~= v.wallet_name);
    assert(s.subrange(q5, p6) =~= lit6());
    assert(s.subrange(p6, q6) =~= v.wallet_password);
    assert(s.subrange(q6, s.len() as int) =~= lit7());
    assert forall|k: int| p1 <= k < q1 implies s[k] != '"' by {
        assert(s[k] == v.dir[k - p1]);
    }
    assert forall|k: int| p2 <= k < q2 implies s[k] != '"' by {
        assert(s[k] == v.listen[k - p2]);
    }
    assert forall|k: int| p3 <= k < q3 implies s[k] != '"' by {
        assert(s[k] == v.electrum_rpc_url[k - p3]);
    }
    assert forall|k: int| p4 <= k < q4 implies s[k] != '"' by {
        assert(s[k] == v.wallet_rpc_url[k - p4]);
    }
    assert forall|k: int| p5 <= k < q5 implies s[k] != '"' by {
        assert(s[k] == v.wallet_name[k - p5]);
    }
    assert forall|k: int| p6 <= k < q6 implies s[k] != '"' by {
        assert(s[k] == v.wallet_password[k - p6]);
    }
    assert(s[q1] == lit2()[0]);
    assert(s[q2] == lit3()[0]);
    assert(s[q3] == lit4()[0]);
    assert(s[q4] == lit5()[0]);
    assert(s[q5] == lit6()[0]);
    assert(s[q6] == lit7()[0]);
}

/// Pin the parser's positions on a rendering: given the segment facts up to
/// `stage`, each quote position the parser found is exactly the one the
/// rendering of `v` places there.
proof fn lemma_pin_prefix(
    s: Seq<char>,
    v: ConfigView,
    j1: int,
    j2: int,
    j3: int,
    j4: int,
    j5: int,
    j6: int,
    stage: int,
)
    requires
        view_ok(v),
        s == encode_spec(v),
        stage >= 1 ==> seg_ok(s, 0, lit1(), j1),
        stage >= 2 ==> seg_ok(s, j1, lit2(), j2),
        stage >= 3 ==> seg_ok(s, j2, lit3(), j3),
        stage >= 4 ==> seg_ok(s, j3, lit4(), j4),
        stage >= 5 ==> seg_ok(s, j4, lit5(), j5),
        stage >= 6 ==> seg_ok(s, j5, lit6(), j6),
    ensures
        stage >= 1 ==> j1 == lit1().len() + v.dir.len() && s.subrange(
            lit1().len() as int,
            j1,
        ) == v.dir,
        stage >= 2 ==> j2 == j1 + lit2().len() + v.listen.len() && s.subrange(
            j1 + lit2().len(),
            j2,
        ) == v.listen,
        stage >= 3 ==> j3 == j2 + lit3().len() + v.electrum_rpc_url.len() && s.subrange(
            j2 + lit3().len(),
            j3,
        ) == v.electrum_rpc_url,
        stage >= 4 ==> j4 == j3 + lit4().len() + v.wallet_rpc_url.len() && s.subrange(
            j3 + lit4().len(),
            j4,
        ) == v.wallet_rpc_url,
        stage >= 5 ==> j5 == j4 + lit5().len() + v.wallet_name.len() && s.subrange(
            j4 + lit5().len(),
            j5,
        ) == v.wallet_name,
        stage >= 6 ==> j6 == j5 + lit6().len() + v.wallet_password.len() && s.subrange(
            j5 + lit6().len(),
            j6,
        ) == v.wallet_password,
{
    lemma_image_shape(s, v);
    let p1 = lit1().len() as int;
    let q1 = p1 + v.dir.len();
    let p2 = q1 + lit2().len();
    let q2 = p2 + v.listen.len();
    let p3 = q2 + lit3().len();
    let q3 = p3 + v.electrum_rpc_url.len();
    let p4 = q3 + lit4().len();
    let q4 = p4 + v.wallet_rpc_url.len();
    let p5 = q4 + lit5().len();
    let q5 = p5 + v.wallet_name.len();
    let p6 = q5 + lit6().len();
    let q6 = p6 + v.wallet_password.len();
    if stage >= 1 {
        assert(j1 == q1);
    }
    if stage >= 2 {
        assert(j2 == q2);
    }
    if stage >= 3 {
        assert(j3 == q3);
    }
    if stage >= 4 {
        assert(j4 == q4);
    }
    if stage >= 5 {
        assert(j5 == q5);
    }
    if stage >= 6 {
        assert(j6 == q6);
    }
}

/// The opening literal is missing: the text renders no configuration.
proof fn lemma_fail_lit1(s: Seq<char>)
    requires
        !(lit1().len() <= s.len() && s.subrange(0, lit1().len() as int) == lit1()),
    ensures
        forall|v: ConfigView| !(view_ok(v) && s == #[trigger] encode_spec(v)),
{
    assert forall|v: ConfigView| !(view_ok(v) && s == #[trigger] encode_spec(v)) by {
        if view_ok(v) && s == encode_spec(v) {
            lemma_image_shape(s, v);
        }
    }
}

/// No quote follows the opening literal: no rendering matches.
proof fn lemma_fail_val1(s: Seq<char>)
    requires
        forall|k: int| lit1().len() <= k < s.len() ==> s[k] != '"',
    ensures
        forall|v: ConfigView| !(view_ok(v) && s == #[trigger] encode_spec(v)),
{
    assert forall|v: ConfigView| !(view_ok(v) && s == #[trigger] encode_spec(v)) by {
        if view_ok(v) && s == encode_spec(v) {
            lemma_image_shape(s, v);
            assert(s[lit1().len() as int + v.dir.len() as int] == '"');
        }
    }
}

proof fn lemma_fail_lit2(s: Seq<char>, j1: int)
    requires
        seg_ok(s, 0, lit1(), j1),
        !(j1 + lit2().len() <= s.len() && s.subrange(j1, j1 + lit2().len()) == lit2()),
    ensures
        forall|v: ConfigView| !(view_ok(v) && s == #[trigger] encode_spec(v)),
{
    assert forall|v: ConfigView| !(view_ok(v) && s == #[trigger] encode_spec(v)) by {
        if view_ok(v) && s == encode_spec(v) {
            lemma_pin_prefix(s, v, j1, 0, 0, 0, 0, 0, 1);
            lemma_image_shape(s, v);
        }
    }
}

proof fn lemma_fail_val2(s: Seq<char>, j1: int)
    requires
        seg_ok(s, 0, lit1(), j1),
        forall|k: int| j1 + lit2().len() <= k < s.len() ==> s[k] != '"',
    ensures
        forall|v: ConfigView| !(view_ok(v) && s == #[trigger] encode_spec(v)),
{
    assert forall|v: ConfigView| !(view_ok(v) && s == #[trigger] encode_spec(v)) by {
        if view_ok(v) && s == encode_spec(v) {
            lemma_pin_prefix(s, v, j1, 0, 0, 0, 0, 0, 1);
            lemma_image_shape(s, v);
            assert(s[j1 + lit2().len() + v.listen.len()] == '"');
        }
    }
}

proof fn lemma_fail_lit3(s: Seq<char>, j1: int, j2: int)
    requires
        seg_ok(s, 0, lit1(), j1),
        seg_ok(s, j1, lit2(), j2),
        !(j2 + lit3().len() <= s.len() && s.subrange(j2, j2 + lit3().len()) == lit3()),
    ensures
        forall|v: ConfigView| !(view_ok(v) && s == #[trigger] encode_spec(v)),
{
    assert forall|v: ConfigView| !(view_ok(v) && s == #[trigger] encode_spec(v)) by {
        if view_ok(v) && s == encode_spec(v) {
            lemma_pin_prefix(s, v, j1, j2, 0, 0, 0, 0, 2);
            lemma_image_shape(s, v);
        }
    }
}

proof fn lemma_fail_val3(s: Seq<char>, j1: int, j2: int)
    requires
        seg_ok(s, 0, lit1(), j1),
        seg_ok(s, j1, lit2(), j2),
        forall|k: int| j2 + lit3().len() <= k < s.len() ==> s[k] != '"',
    ensures
        forall|v: ConfigView| !(view_ok(v) && s == #[trigger] encode_spec(v)),
{
    assert forall|v: ConfigView| !(view_ok(v) && s == #[trigger] encode_spec(v)) by {
        if view_ok(v) && s == encode_spec(v) {
            lemma_pin_prefix(s, v, j1, j2, 0, 0, 0, 0, 2);
            lemma_image_shape(s, v);
            assert(s[j2 + lit3().len() + v.electrum_rpc_url.len()] == '"');
        }
    }
}

proof fn lemma_fail_lit4(s: Seq<char>, j1: int, j2: int, j3: int)
    requires
        seg_ok(s, 0, lit1(), j1),
        seg_ok(s, j1, lit2(), j2),
        seg_ok(s, j2, lit3(), j3),
        !(j3 + lit4().len() <= s.len() && s.subrange(j3, j3 + lit4().len()) == lit4()),
    ensures
        forall|v: ConfigView| !(view_ok(v) && s == #[trigger] encode_spec(v)),
{
    assert forall|v: ConfigView| !(view_ok(v) && s == #[trigger] encode_spec(v)) by {
        if view_ok(v) && s == encode_spec(v) {
            lemma_pin_prefix(s, v, j1, j2, j3, 0, 0, 0, 3);
            lemma_image_shape(s, v);
        }
    }
}

proof fn lemma_fail_val4(s: Seq<char>, j1: int, j2: int, j3: int)
    requires
        seg_ok(s, 0, lit1(), j1),
        seg_ok(s, j1, lit2(), j2),
        seg_ok(s, j2, lit3(), j3),
        forall|k: int| j3 + lit4().len() <= k < s.len() ==> s[k] != '"',
    ensures
        forall|v: ConfigView| !(view_ok(v) && s == #[trigger] encode_spec(v)),
{
    assert forall|v: ConfigView| !(view_ok(v) && s == #[trigger] encode_spec(v)) by {
        if view_ok(v) && s == encode_spec(v) {
            lemma_pin_prefix(s, v, j1, j2, j3, 0, 0, 0, 3);
            lemma_image_shape(s, v);
            assert(s[j3 + lit4().len() + v.wallet_rpc_url.len()] == '"');
        }
    }
}

proof fn lemma_fail_lit5(s: Seq<char>, j1: int, j2: int, j3: int, j4: int)
    requires
        seg_ok(s, 0, lit1(), j1),
        seg_ok(s, j1, lit2(), j2),
        seg_ok(s, j2, lit3(), j3),
        seg_ok(s, j3, lit4(), j4),
        !(j4 + lit5().len() <= s.len() && s.subrange(j4, j4 + lit5().len()) == lit5()),
    ensures
        forall|v: ConfigView| !(view_ok(v) && s == #[trigger] encode_spec(v)),
{
    assert forall|v: ConfigView| !(view_ok(v) && s == #[trigger] encode_spec(v)) by {
        if view_ok(v) && s == encode_spec(v) {
            lemma_pin_prefix(s, v, j1, j2, j3, j4, 0, 0, 4);
            lemma_image_shape(s, v);
        }
    }
}

proof fn lemma_fail_val5(s: Seq<char>, j1: int, j2: int, j3: int, j4: int)
    requires
        seg_ok(s, 0, lit1(), j1),
        seg_ok(s, j1, lit2(), j2),
        seg_ok(s, j2, lit3(), j3),
        seg_ok(s, j3, lit4(), j4),
        forall|k: int| j4 + lit5().len() <= k < s.len() ==> s[k] != '"',
    ensures
        forall|v: ConfigView| !(view_ok(v) && s == #[trigger] encode_spec(v)),
{
    assert forall|v: ConfigView| !(view_ok(v) && s == #[trigger] encode_spec(v)) by {
        if view_ok(v) && s == encode_spec(v) {
            lemma_pin_prefix(s, v, j1, j2, j3, j4, 0, 0, 4);
            lemma_image_shape(s, v);
            assert(s[j4 + lit5().len() + v.wallet_name.len()] == '"');
        }
    }
}

proof fn lemma_fail_lit6(s: Seq<char>, j1: int, j2: int, j3: int, j4: int, j5: int)
    requires
        seg_ok(s, 0, lit1(), j1),
        seg_ok(s, j1, lit2(), j2),
        seg_ok(s, j2, lit3(), j3),
        seg_ok(s, j3, lit4(), j4),
        seg_ok(s, j4, lit5(), j5),
        !(j5 + lit6().len() <= s.len() && s.subrange(j5, j5 + lit6().len()) == lit6()),
    ensures
        forall|v: ConfigView| !(view_ok(v) && s == #[trigger] encode_spec(v)),
{
    assert forall|v: ConfigView| !(view_ok(v) && s == #[trigger] encode_spec(v)) by {
        if view_ok(v) && s == encode_spec(v) {
            lemma_pin_prefix(s, v, j1, j2, j3, j4, j5, 0, 5);
            lemma_image_shape(s, v);
        }
    }
}

proof fn lemma_fail_val6(s: Seq<char>, j1: int, j2: int, j3: int, j4: int, j5: int)
    requires
        seg_ok(s, 0, lit1(), j1),
        seg_ok(s, j1, lit2(), j2),
        seg_ok(s, j2, lit3(), j3),
        seg_ok(s, j3, lit4(), j4),
        seg_ok(s, j4, lit5(), j5),
        forall|k: int| j5 + lit6().len() <= k < s.len() ==> s[k] != '"',
    ensures
        forall|v: ConfigView| !(view_ok(v) && s == #[trigger] encode_spec(v)),
{
    assert forall|v: ConfigView| !(view_ok(v) && s == #[trigger] encode_spec(v)) by {
        if view_ok(v) && s == encode_spec(v) {
            lemma_pin_prefix(s, v, j1, j2, j3, j4, j5, 0, 5);
            lemma_image_shape(s, v);
            assert(s[j5 + lit6().len() + v.wallet_password.len()] == '"');
        }
    }
}

/// The closing literal is missing or the text runs on: no rendering.
proof fn lemma_fail_end(s: Seq<char>, j1: int, j2: int, j3: int, j4: int, j5: int, j6: int)
    requires
        seg_ok(s, 0, lit1(), j1),
        seg_ok(s, j1, lit2(), j2),
        seg_ok(s, j2, lit3(), j3),
        seg_ok(s, j3, lit4(), j4),
        seg_ok(s, j4, lit5(), j5),
        seg_ok(s, j5, lit6(), j6),
        !(j6 + lit7().len() <= s.len() && s.subrange(j6, j6 + lit7().len()) == lit7() && s.len()
            == j6 + lit7().len()),
    ensures
        forall|v: ConfigView| !(view_ok(v) && s == #[trigger] encode_spec(v)),
{
    assert forall|v: ConfigView| !(view_ok(v) && s == #[trigger] encode_spec(v)) by {
        if view_ok(v) && s == encode_spec(v) {
            lemma_pin_prefix(s, v, j1, j2, j3, j4, j5, j6, 6);
            lemma_image_shape(s, v);
        }
    }
}

/// On a full parse of a rendering of `v`, every parsed value is the
/// corresponding value of `v`.
proof fn lemma_pins(s: Seq<char>, v: ConfigView, j1: int, j2: int, j3: int, j4: int, j5: int, j6: int)
    requires
        view_ok(v),
        s == encode_spec(v),
        seg_ok(s, 0, lit1(), j1),
        seg_ok(s, j1, lit2(), j2),
        seg_ok(s, j2, lit3(), j3),
        seg_ok(s, j3, lit4(), j4),
        seg_ok(s, j4, lit5(), j5),
        seg_ok(s, j5, lit6(), j6),
    ensures
        s.subrange(lit1().len() as int, j1) == v.dir,
        s.subrange(j1 + lit2().len(), j2) == v.listen,
        s.subrange(j2 + lit3().len(), j3) == v.electrum_rpc_url,
        s.subrange(j3 + lit4().len(), j4) == v.wallet_rpc_url,
        s.subrange(j4 + lit5().len(), j5) == v.wallet_name,
        s.subrange(j5 + lit6().len(), j6) == v.wallet_password,
{
    lemma_pin_prefix(s, v, j1, j2, j3, j4, j5, j6, 6);
}

} // verus!
