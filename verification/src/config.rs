//! User configuration and the regional markets.
//!
//! Loading and saving the configuration file is the runtime's business;
//! the library holds the configuration as plain values and the pure
//! pieces of its handling, such as tilde expansion of a stored path.

use vstd::prelude::*;

verus! {

/// A regional market of the image source.
pub struct Market {
    /// Market code used in requests, such as `en-US`.
    pub code: &'static str,
    /// Human-readable name for display.
    pub name: &'static str,
}

/// User configuration, persisted as a JSON document by the runtime.
#[derive(Clone)]
pub struct Config {
    /// Directory where downloaded wallpapers are stored.
    pub wallpaper_dir: String,
    /// Selected market code.
    pub market: String,
    /// Whether automatic daily updates are enabled. The live timer
    /// state is persisted separately; this mirrors it for the UI.
    pub auto_update: bool,
    /// Days to keep old wallpapers; `0` keeps them forever.
    pub keep_days: u32,
    /// Whether to fetch today's image when the app starts.
    pub fetch_on_startup: bool,
}

/// Fetch-on-startup is on unless the stored document says otherwise.
pub fn default_fetch_on_startup() -> (r: bool)
    ensures
        r == true,
{
    true
}

impl Config {
    /// The default configuration over a caller-supplied wallpaper
    /// directory, which the runtime derives from the user's picture
    /// folder.
    pub fn default_with_dir(wallpaper_dir: String) -> (r: Config)
        ensures
            r.wallpaper_dir == wallpaper_dir,
            r.market@ == "en-US"@,
            r.auto_update == false,
            r.keep_days == 30,
            r.fetch_on_startup == true,
    {
        Config {
            wallpaper_dir,
            market: String::from_str("en-US"),
            auto_update: false,
            keep_days: 30,
            fetch_on_startup: true,
        }
    }
}

impl Default for Config {
    /// The default configuration with the customary wallpaper directory
    /// under the user's home, still in tilde form.
    fn default() -> (r: Config)
        ensures
            r.wallpaper_dir@ == "~/Pictures/BingWallpapers"@,
            r.market@ == "en-US"@,
            r.auto_update == false,
            r.keep_days == 30,
            r.fetch_on_startup == true,
    {
        Config::default_with_dir(String::from_str("~/Pictures/BingWallpapers"))
    }
}

/// What tilde expansion yields: `~/rest` becomes `home/rest`, a bare
/// `~` becomes `home`, anything else passes through.
pub open spec fn spec_expand_tilde(path: Seq<char>, home: Seq<char>) -> Seq<char> {
    if path.len() >= 2 && path[0] == '~' && path[1] == '/' {
        home + path.skip(1)
    } else if path.len() == 1 && path[0] == '~' {
        home
    } else {
        path
    }
}

/// Expand a leading tilde in a stored path against the given home
/// directory, so a hand-edited `~/...` path works.
pub fn expand_tilde(path: &str, home: &str) -> (r: String)
    ensures
        r@ == spec_expand_tilde(path@, home@),
{
    let n = path.unicode_len();
    if n >= 2 && path.get_char(0) == '~' && path.get_char(1) == '/' {
        let mut out = String::from_str(home);
        out.append(path.substring_char(1, n));
        proof {
            assert(out@ =~= spec_expand_tilde(path@, home@));
        }
        out
    } else if n == 1 && path.get_char(0) == '~' {
        home.to_owned()
    } else {
        path.to_owned()
    }
}

/// The supported markets, alphabetically by display name.
pub fn markets() -> (r: Vec<Market>)
    ensures
        r@.len() == 21,
        r@[0].code@ == "en-AU"@ && r@[0].name@ == "Australia"@,
        r@[1].code@ == "pt-BR"@ && r@[1].name@ == "Brazil"@,
        r@[2].code@ == "en-CA"@ && r@[2].name@ == "Canada"@,
        r@[3].code@ == "zh-CN"@ && r@[3].name@ == "China"@,
        r@[4].code@ == "da-DK"@ && r@[4].name@ == "Denmark"@,
        r@[5].code@ == "fi-FI"@ && r@[5].name@ == "Finland"@,
        r@[6].code@ == "fr-FR"@ && r@[6].name@ == "France"@,
        r@[7].code@ == "de-DE"@ && r@[7].name@ == "Germany"@,
        r@[8].code@ == "en-IN"@ && r@[8].name@ == "India"@,
        r@[9].code@ == "it-IT"@ && r@[9].name@ == "Italy"@,
        r@[10].code@ == "ja-JP"@ && r@[10].name@ == "Japan"@,
        r@[11].code@ == "nl-NL"@ && r@[11].name@ == "Netherlands"@,
        r@[12].code@ == "en-NZ"@ && r@[12].name@ == "New Zealand"@,
        r@[13].code@ == "nb-NO"@ && r@[13].name@ == "Norway"@,
        r@[14].code@ == "pl-PL"@ && r@[14].name@ == "Poland"@,
        r@[15].code@ == "ru-RU"@ && r@[15].name@ == "Russia"@,
        r@[16].code@ == "ko-KR"@ && r@[16].name@ == "South Korea"@,
        r@[17].code@ == "es-ES"@ && r@[17].name@ == "Spain"@,
        r@[18].code@ == "sv-SE"@ && r@[18].name@ == "Sweden"@,
        r@[19].code@ == "en-GB"@ && r@[19].name@ == "United Kingdom"@,
        r@[20].code@ == "en-US"@ && r@[20].name@ == "United States"@,
{
    let mut v: Vec<Market> = Vec::new();
    v.push(Market { code: "en-AU", name: "Australia" });
    v.push(Market { code: "pt-BR", name: "Brazil" });
    v.push(Market { code: "en-CA", name: "Canada" });
    v.push(Market { code: "zh-CN", name: "China" });
    v.push(Market { code: "da-DK", name: "Denmark" });
    v.push(Market { code: "fi-FI", name: "Finland" });
    v.push(Market { code: "fr-FR", name: "France" });
    v.push(Market { code: "de-DE", name: "Germany" });
    v.push(Market { code: "en-IN", name: "India" });
    v.push(Market { code: "it-IT", name: "Italy" });
    v.push(Market { code: "ja-JP", name: "Japan" });
    v.push(Market { code: "nl-NL", name: "Netherlands" });
    v.push(Market { code: "en-NZ", name: "New Zealand" });
    v.push(Market { code: "nb-NO", name: "Norway" });
    v.push(Market { code: "pl-PL", name: "Poland" });
    v.push(Market { code: "ru-RU", name: "Russia" });
    v.push(Market { code: "ko-KR", name: "South Korea" });
    v.push(Market { code: "es-ES", name: "Spain" });
    v.push(Market { code: "sv-SE", name: "Sweden" });
    v.push(Market { code: "en-GB", name: "United Kingdom" });
    v.push(Market { code: "en-US", name: "United States" });
    v
}

} // verus!
