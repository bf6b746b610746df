//! How the daemon is reached: credentials given by the caller, or read from
//! the daemon's own configuration file.
//!
//! The file is plain text with one `key=value` setting per line. A line
//! that does not hold exactly one `=` is no setting and is passed over, and
//! of two settings of one key the later one counts.

use crate::decimal::{decimal, parse_u16, parsed_u16, to_decimal};
use crate::error::{Error, ParseIntError};
use crate::text::{ascii_upper, chars_of, range_equals, text_equals, to_ascii_uppercase};
use vstd::prelude::*;

verus! {

/// Length of the first line of `s`: the number of characters before the
/// first line feed, or all of them.
pub open spec fn line_len(s: Seq<char>) -> nat
    decreases s.len(),
{
    if s.len() == 0 || s[0] == '\n' {
        0
    } else {
        1 + line_len(s.drop_first())
    }
}

/// The lines of `s`: the pieces between its line feeds. A text that ends in
/// a line feed has an empty last line.
pub open spec fn lines(s: Seq<char>) -> Seq<Seq<char>>
    decreases s.len(),
{
    let k = line_len(s) as int;
    if k >= s.len() {
        seq![s]
    } else {
        seq![s.take(k)] + lines(s.skip(k + 1))
    }
}

/// `p` is the position of the one `=` of `line`.
pub open spec fn sole_equals_sign(line: Seq<char>, p: int) -> bool {
    &&& 0 <= p < line.len()
    &&& line[p] == '='
    &&& forall|i: int| 0 <= i < line.len() && line[i] == '=' ==> i == p
}

/// The key and the value of a line that holds exactly one `=`.
pub open spec fn entry(line: Seq<char>) -> Option<(Seq<char>, Seq<char>)> {
    if exists|p: int| sole_equals_sign(line, p) {
        let p = choose|p: int| sole_equals_sign(line, p);
        Some((line.take(p), line.skip(p + 1)))
    } else {
        None
    }
}

/// The value of `key` after `lines`, where `earlier` is its value before
/// them: each line that sets `key` replaces what the lines before it set.
pub open spec fn setting_after(
    lines: Seq<Seq<char>>,
    key: Seq<char>,
    earlier: Option<Seq<char>>,
) -> Option<Seq<char>>
    decreases lines.len(),
{
    if lines.len() == 0 {
        earlier
    } else {
        let now = match entry(lines[0]) {
            Some((k, v)) => if k == key {
                Some(v)
            } else {
                earlier
            },
            None => earlier,
        };
        setting_after(lines.drop_first(), key, now)
    }
}

/// The value that the configuration text `contents` gives to `key`.
pub open spec fn setting(contents: Seq<char>, key: Seq<char>) -> Option<Seq<char>> {
    setting_after(lines(contents), key, None)
}

/// The first line ends where the first line feed stands.
pub proof fn lemma_line_len(s: Seq<char>, k: int)
    requires
        0 <= k <= s.len(),
        forall|i: int| 0 <= i < k ==> s[i] != '\n',
        k == s.len() || s[k] == '\n',
    ensures
        line_len(s) == k,
    decreases s.len(),
{
    if k > 0 {
        let rest = s.drop_first();
        assert forall|i: int| 0 <= i < k - 1 implies rest[i] != '\n' by {
            assert(rest[i] == s[i + 1]);
        }
        lemma_line_len(rest, k - 1);
    }
}

/// A line with exactly one `=`, at `p`, is the setting of what stands before
/// `p` to what stands behind it.
pub proof fn lemma_entry(line: Seq<char>, p: int)
    requires
        sole_equals_sign(line, p),
    ensures
        entry(line) == Some((line.take(p), line.skip(p + 1))),
{
    let q = choose|q: int| sole_equals_sign(line, q);
    assert(q == p);
}

/// Looks `key` up in the configuration text `contents`.
pub fn lookup(contents: &str, key: &str) -> (value: Option<String>)
    ensures
        match value {
            Some(v) => setting(contents@, key@) == Some(v@),
            None => setting(contents@, key@) is None,
        },
{
    let chars = chars_of(contents);
    let wanted = chars_of(key);
    let n = chars.len();
    let mut found: Option<(usize, usize)> = None;
    let ghost mut earlier: Option<Seq<char>> = None;
    let mut start: usize = 0;
    let mut done = false;
    assert(contents@.skip(0) =~= contents@);
    while !done
        invariant
            chars@ == contents@,
            wanted@ == key@,
            n == chars.len(),
            start <= n,
            !done ==> setting(contents@, key@) == setting_after(
                lines(contents@.skip(start as int)),
                key@,
                earlier,
            ),
            done ==> setting(contents@, key@) == earlier,
            done ==> start == n,
            match found {
                Some((a, b)) => a <= b <= n && earlier == Some(
                    contents@.subrange(a as int, b as int),
                ),
                None => earlier is None,
            },
        decreases n - start + (if done { 0int } else { 1int }),
    {
        let mut end = start;
        let mut signs: u8 = 0;
        let mut sign_at = start;
        let ghost mut second: int = 0;
        while end < n && chars[end] != '\n'
            invariant
                n == chars.len(),
                start <= end <= n,
                forall|i: int| start <= i < end ==> chars[i] != '\n',
                signs <= 2,
                signs == 0 ==> forall|i: int| start <= i < end ==> chars[i] != '=',
                signs == 1 ==> start <= sign_at < end && chars[sign_at as int] == '=' && forall|
                    i: int,
                | start <= i < end && chars[i] == '=' ==> i == sign_at,
                signs == 2 ==> start <= sign_at < second < end && chars[sign_at as int] == '='
                    && chars[second] == '=',
            decreases n - end,
        {
            if chars[end] == '=' {
                if signs == 0 {
                    sign_at = end;
                    signs = 1;
                } else if signs == 1 {
                    proof {
                        second = end as int;
                    }
                    signs = 2;
                }
            }
            end += 1;
        }
        let ghost rest = contents@.skip(start as int);
        let ghost line = rest.take(end - start);
        let ghost before = earlier;
        let is_key = signs == 1 && range_equals(&chars, start, sign_at, &wanted);
        proof {
            assert forall|i: int| 0 <= i < end - start implies rest[i] != '\n' by {
                assert(rest[i] == chars[start + i]);
            }
            lemma_line_len(rest, end - start);
            assert forall|i: int| 0 <= i < line.len() implies line[i] == chars[start + i] by {}
            if signs == 1 {
                let p = sign_at - start;
                assert(sole_equals_sign(line, p));
                lemma_entry(line, p);
                assert(line.take(p) =~= contents@.subrange(start as int, sign_at as int));
                assert(line.skip(p + 1) =~= contents@.subrange(sign_at + 1, end as int));
            } else if signs == 0 {
                assert forall|p: int| !sole_equals_sign(line, p) by {}
            } else {
                assert forall|p: int| !sole_equals_sign(line, p) by {
                    assert(line[sign_at - start] == '=');
                    assert(line[second - start] == '=');
                }
            }
        }
        if is_key {
            found = Some((sign_at + 1, end));
            proof {
                earlier = Some(contents@.subrange(sign_at + 1, end as int));
            }
        }
        proof {
            let all = lines(rest);
            if end == n {
                assert(line =~= rest);
                assert(all == seq![rest]);
                assert(all.drop_first() =~= Seq::<Seq<char>>::empty());
                assert(setting_after(all, key@, before) == setting_after(
                    all.drop_first(),
                    key@,
                    earlier,
                ));
            } else {
                let tail = lines(rest.skip(end - start + 1));
                assert(rest.skip(end - start + 1) =~= contents@.skip(end + 1));
                assert(all == seq![line] + tail);
                assert(all.drop_first() =~= tail);
                assert(all[0] == line);
            }
        }
        if end == n {
            done = true;
            start = n;
        } else {
            start = end + 1;
        }
    }
    match found {
        Some((a, b)) => Some(contents.substring_char(a, b).to_owned()),
        None => None,
    }
}

/// The coin whose configuration file may leave the port out.
pub open spec fn main_coin() -> Seq<char> {
    "KMD"@
}

/// The port of the main coin's daemon where its configuration file names
/// none.
pub open spec fn main_coin_port() -> Seq<char> {
    "7771"@
}

/// The text of the port for `coin`: what the file sets, or, for the main
/// coin only, its well-known port.
pub open spec fn port_text(coin: Seq<char>, contents: Seq<char>) -> Option<Seq<char>> {
    match setting(contents, "rpcport"@) {
        Some(text) => Some(text),
        None => if coin == main_coin() {
            Some(main_coin_port())
        } else {
            None
        },
    }
}

/// What a configuration file says: user name, password and port.
pub struct Settings {
    pub rpcuser: Seq<char>,
    pub rpcpassword: Seq<char>,
    pub rpcport: u16,
}

/// What the configuration text `contents` says for `coin`. User name and
/// password must be set, and so must the port but for the main coin; the
/// port must be a number.
pub open spec fn settings_of(coin: Seq<char>, contents: Seq<char>) -> Result<Settings, Error> {
    match (
        setting(contents, "rpcuser"@),
        setting(contents, "rpcpassword"@),
        port_text(coin, contents),
    ) {
        (Some(rpcuser), Some(rpcpassword), Some(port)) => match parsed_u16(port) {
            Ok(rpcport) => Ok(Settings { rpcuser, rpcpassword, rpcport }),
            Err(e) => Err(Error::ParseIntError(e)),
        },
        _ => Err(Error::InvalidConfigFile),
    }
}

/// The settings of a daemon's configuration file.
#[derive(Debug)]
pub struct ConfigFile {
    pub rpcuser: String,
    pub rpcpassword: String,
    pub rpcport: u16,
}

impl View for ConfigFile {
    type V = Settings;

    open spec fn view(&self) -> Settings {
        Settings {
            rpcuser: self.rpcuser@,
            rpcpassword: self.rpcpassword@,
            rpcport: self.rpcport,
        }
    }
}

/// Where the daemon listens when it runs on this machine at `port`.
pub open spec fn local_url(port: u16) -> Seq<char> {
    "http://127.0.0.1:"@ + decimal(port as nat)
}

/// What the transport needs to reach the daemon.
pub struct Access {
    pub url: Seq<char>,
    pub user: Seq<char>,
    pub password: Seq<char>,
}

/// Address of the daemon, user name and password.
#[derive(Debug)]
pub struct Credentials {
    pub url: String,
    pub user: String,
    pub password: String,
}

impl View for Credentials {
    type V = Access;

    open spec fn view(&self) -> Access {
        Access { url: self.url@, user: self.user@, password: self.password@ }
    }
}

impl ConfigFile {
    /// Reads the settings for `coin` from the text `contents` of its
    /// configuration file.
    pub fn new(coin: &str, contents: &str) -> (res: Result<ConfigFile, Error>)
        ensures
            match res {
                Ok(config) => settings_of(coin@, contents@) == Ok::<Settings, Error>(config@),
                Err(e) => settings_of(coin@, contents@) == Err::<Settings, Error>(e),
            },
    {
        let rpcuser = match lookup(contents, "rpcuser") {
            Some(value) => value,
            None => {
                return Err(Error::InvalidConfigFile);
            },
        };
        let rpcpassword = match lookup(contents, "rpcpassword") {
            Some(value) => value,
            None => {
                return Err(Error::InvalidConfigFile);
            },
        };
        let port = match lookup(contents, "rpcport") {
            Some(value) => value,
            None => {
                if text_equals(coin, "KMD") {
                    "7771".to_owned()
                } else {
                    return Err(Error::InvalidConfigFile);
                }
            },
        };
        match parse_u16(port.as_str()) {
            Ok(rpcport) => Ok(ConfigFile { rpcuser, rpcpassword, rpcport }),
            Err(e) => Err(Error::ParseIntError(e)),
        }
    }

    /// The credentials for the daemon that these settings belong to, which
    /// runs on this machine.
    pub fn credentials(self) -> (access: Credentials)
        ensures
            access@ == (Access {
                url: local_url(self.rpcport),
                user: self.rpcuser@,
                password: self.rpcpassword@,
            }),
    {
        let mut url = "http://127.0.0.1:".to_owned();
        let port = to_decimal(self.rpcport as u64);
        url.append(port.as_str());
        Credentials { url, user: self.rpcuser, password: self.rpcpassword }
    }
}

/// Where the credentials come from.
#[derive(Clone, Debug)]
pub enum Auth {
    /// From the caller: address of the daemon, user name, password.
    UserPass(String, String, String),
    /// From the configuration file of the daemon on this machine.
    ConfigFile,
}

impl Auth {
    /// Whether the configuration file has to be found and read.
    pub fn needs_config_file(&self) -> (needed: bool)
        ensures
            needed == (*self is ConfigFile),
    {
        match self {
            Auth::ConfigFile => true,
            Auth::UserPass(_, _, _) => false,
        }
    }

    /// The credentials for the daemon of `coin`. What the caller gave is
    /// taken as it is; else `contents`, the text of the configuration file
    /// of `coin`, decides.
    pub fn credentials(self, coin: &str, contents: &str) -> (res: Result<Credentials, Error>)
        ensures
            match self {
                Auth::UserPass(url, user, password) => (res matches Ok(access) && access@ == (
                Access { url: url@, user: user@, password: password@ })),
                Auth::ConfigFile => match settings_of(coin@, contents@) {
                    Ok(settings) => (res matches Ok(access) && access@ == (Access {
                        url: local_url(settings.rpcport),
                        user: settings.rpcuser,
                        password: settings.rpcpassword,
                    })),
                    Err(e) => res matches Err(err) && err == e,
                },
            },
    {
        match self {
            Auth::UserPass(url, user, password) => Ok(Credentials { url, user, password }),
            Auth::ConfigFile => {
                match ConfigFile::new(coin, contents) {
                    Ok(config) => Ok(config.credentials()),
                    Err(e) => Err(e),
                }
            },
        }
    }
}

/// The operating systems that the daemon's folder is known for.
#[derive(Clone, Copy, Debug, PartialEq, Eq, Structural)]
pub enum OsType {
    Ubuntu,
    Linux,
    Macos,
    Windows,
    /// Any other system.
    Other,
}

/// Name of the daemon's folder in the user's home directory, where the
/// system is one that the daemon is known to run on.
pub fn installation_folder(os: OsType) -> (name: Option<&'static str>)
    ensures
        match os {
            OsType::Ubuntu | OsType::Linux => (name matches Some(n) && n@ == ".komodo"@),
            OsType::Macos | OsType::Windows => (name matches Some(n) && n@ == "Komodo"@),
            OsType::Other => name is None,
        },
{
    match os {
        OsType::Ubuntu | OsType::Linux => Some(".komodo"),
        OsType::Macos | OsType::Windows => Some("Komodo"),
        OsType::Other => None,
    }
}

/// The name of `coin` in capitals.
pub open spec fn capitals(coin: Seq<char>) -> Seq<char> {
    coin.map_values(|c: char| ascii_upper(c))
}

/// Where the configuration file of `coin` lies below the daemon's folder,
/// one path component after the other: the main coin's file lies in the
/// folder itself, that of any other coin in a folder of the coin's name.
pub fn config_path(coin: &str) -> (parts: Vec<String>)
    ensures
        coin@ == main_coin() ==> parts.len() == 1 && parts[0]@ == "komodo.conf"@,
        coin@ != main_coin() ==> parts.len() == 2 && parts[0]@ == capitals(coin@) && parts[1]@
            == capitals(coin@) + ".conf"@,
{
    let mut parts: Vec<String> = Vec::new();
    if text_equals(coin, "KMD") {
        parts.push("komodo.conf".to_owned());
    } else {
        parts.push(to_ascii_uppercase(coin));
        let mut file = to_ascii_uppercase(coin);
        file.append(".conf");
        parts.push(file);
    }
    parts
}

} // verus!
