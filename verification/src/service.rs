//! The wallpaper service's shared state and its file-handling rules.
//!
//! The operations that other processes reach over IPC are thin shells
//! around what stands here: the shared state record, the date embedded
//! in a download's filename, the retention-cleanup decision, and the
//! download history. The runtime scans directories and deletes files;
//! which files, and in what order they are shown, is decided and
//! verified here.

use vstd::prelude::*;

use crate::bing::spec_wallpaper_filename;
use crate::bing::BingImage;
use crate::config::Config;
use crate::dates::day_number;
use crate::dates::parse_date;
use crate::dates::spec_parse_date;
use crate::dates::CivilDate;
use crate::text::seq_ends_with;
use crate::text::seq_starts_with;
use crate::text::str_ends_with;
use crate::text::str_starts_with;

verus! {

/// Relies on `std::path::Path::exists`; the probe's outcome depends on
/// the machine, so nothing is claimed of it.
#[verifier::external_body]
fn path_exists(path: &str) -> bool {
    std::path::Path::new(path).exists()
}

/// Whether this process runs inside a Flatpak sandbox, which the
/// runtime uses to run host commands through the sandbox portal.
pub fn is_flatpak() -> bool {
    path_exists("/.flatpak-info")
}

/// A wallpaper in the download history.
pub struct WallpaperInfo {
    /// Full filesystem path to the image.
    pub path: String,
    /// Filename only.
    pub filename: String,
    /// Date extracted from the filename.
    pub date: String,
}

/// Shared service state: the configuration and the last fetched
/// artifact. The timer lives beside it in the owning process and is
/// shared separately.
pub struct ServiceState {
    pub config: Config,
    /// Metadata of the most recently fetched image.
    pub current_image: Option<BingImage>,
    /// Path of the most recently downloaded file; set only after the
    /// file existed on disk.
    pub current_path: Option<String>,
}

/// The service state as the older daemon layout named it.
pub type DaemonState = ServiceState;

impl ServiceState {
    /// Fresh state around a loaded configuration: nothing fetched yet.
    pub fn new(config: Config) -> (r: ServiceState)
        ensures
            r.config == config,
            r.current_image is None,
            r.current_path is None,
    {
        ServiceState { config, current_image: None, current_path: None }
    }

    /// Record the artifact of a completed fetch.
    pub fn set_current(&mut self, image: BingImage, path: String)
        ensures
            final(self).config == old(self).config,
            final(self).current_image == Some(image),
            final(self).current_path == Some(path),
    {
        self.current_image = Some(image);
        self.current_path = Some(path);
    }

    /// The current wallpaper path for remote callers: the empty string
    /// when nothing has been fetched this session.
    pub fn current_wallpaper_path(&self) -> (r: String)
        ensures
            match self.current_path {
                Some(p) => r == p,
                None => r@ == Seq::<char>::empty(),
            },
    {
        match &self.current_path {
            Some(p) => p.clone(),
            None => String::new(),
        }
    }
}

/// Whether an applied file is exactly the one the last fetch produced,
/// so that its title is on record.
pub open spec fn spec_title_known(state: ServiceState, path: Seq<char>) -> bool {
    state.current_image is Some && (state.current_path matches Some(p) && p@ == path)
}

/// The title announced when a file is applied: the fetched image's
/// title when the file is the one that fetch produced, else the file's
/// own name, with a plain placeholder for a path that has no final
/// component.
pub fn applied_title(state: &ServiceState, path: &str) -> (r: String)
    ensures
        spec_title_known(*state, path@) ==> (state.current_image matches Some(img) && r
            == img.title),
        !spec_title_known(*state, path@) ==> r@ == (if spec_basename(path@).len() == 0 {
            "Wallpaper"@
        } else {
            spec_basename(path@)
        }),
{
    let known = match (&state.current_image, &state.current_path) {
        (Some(_), Some(p)) => crate::text::str_eq(p.as_str(), path),
        _ => false,
    };
    if known {
        match &state.current_image {
            Some(img) => img.title.clone(),
            None => unreached(),
        }
    } else {
        let name = basename(path);
        if name.as_str().is_empty() {
            String::from_str("Wallpaper")
        } else {
            name
        }
    }
}

/// A path directly under `dir`.
pub open spec fn spec_join_path(dir: Seq<char>, name: Seq<char>) -> Seq<char> {
    dir + seq!['/'] + name
}

/// Join a directory and a filename.
pub fn join_path(dir: &str, name: &str) -> (r: String)
    ensures
        r@ == spec_join_path(dir@, name@),
{
    let mut out = String::from_str(dir);
    crate::text::push_char(&mut out, '/');
    out.append(name);
    proof {
        assert(out@ =~= spec_join_path(dir@, name@));
    }
    out
}

/// Index just past the last `/` of a path, or `0` when it has none.
pub open spec fn spec_cut(p: Seq<char>) -> int
    decreases p.len(),
{
    if p.len() == 0 {
        0
    } else if p[p.len() - 1] == '/' {
        p.len() as int
    } else {
        spec_cut(p.drop_last())
    }
}

/// The final component of a path: everything after its last `/`.
pub open spec fn spec_basename(p: Seq<char>) -> Seq<char> {
    p.subrange(spec_cut(p), p.len() as int)
}

/// The final component of a path string.
pub fn basename(path: &str) -> (r: String)
    ensures
        r@ == spec_basename(path@),
{
    let n = path.unicode_len();
    let mut cut: usize = 0;
    let mut j: usize = 0;
    proof {
        assert(path@.subrange(0, 0) =~= Seq::<char>::empty());
    }
    while j < n
        invariant
            n == path@.len(),
            j <= n,
            cut <= j,
            cut == spec_cut(path@.subrange(0, j as int)),
        decreases n - j,
    {
        proof {
            let prefix = path@.subrange(0, j as int);
            let prefix1 = path@.subrange(0, j + 1);
            assert(prefix1.drop_last() =~= prefix);
            assert(prefix1.last() == path@[j as int]);
        }
        if path.get_char(j) == '/' {
            cut = j + 1;
        }
        j += 1;
    }
    proof {
        assert(path@.subrange(0, n as int) =~= path@);
    }
    let r = String::from_str(path.substring_char(cut, n));
    r
}

/// The stem of a download filename: the name with a known image
/// extension removed.
pub open spec fn spec_strip_ext(name: Seq<char>) -> Seq<char> {
    if seq_ends_with(name, ".jpg"@) {
        name.subrange(0, name.len() - 4)
    } else if seq_ends_with(name, ".jpeg"@) {
        name.subrange(0, name.len() - 5)
    } else if seq_ends_with(name, ".png"@) {
        name.subrange(0, name.len() - 4)
    } else {
        name
    }
}

/// The date a filename carries: the last ten characters of its stem
/// when they look like `YYYY-MM-DD`, else the whole stem.
pub open spec fn spec_extract_date(name: Seq<char>) -> Seq<char> {
    let stem = spec_strip_ext(name);
    if stem.len() >= 10 && stem[stem.len() - 6] == '-' && stem[stem.len() - 3] == '-' {
        stem.subrange(stem.len() - 10, stem.len() as int)
    } else {
        stem
    }
}

/// Extract the date from a download filename, falling back to the bare
/// stem when no date pattern is found.
pub fn extract_date_from_filename(filename: &str) -> (r: String)
    ensures
        r@ == spec_extract_date(filename@),
{
    proof {
        reveal_strlit(".jpg");
        reveal_strlit(".jpeg");
        reveal_strlit(".png");
    }
    let n = filename.unicode_len();
    let stem: &str = if str_ends_with(filename, ".jpg") {
        filename.substring_char(0, n - 4)
    } else if str_ends_with(filename, ".jpeg") {
        filename.substring_char(0, n - 5)
    } else if str_ends_with(filename, ".png") {
        filename.substring_char(0, n - 4)
    } else {
        filename
    };
    let m = stem.unicode_len();
    if m >= 10 {
        if stem.get_char(m - 6) == '-' && stem.get_char(m - 3) == '-' {
            let r = String::from_str(stem.substring_char(m - 10, m));
            return r;
        }
    }
    String::from_str(stem)
}

/// A filename built for a market and a ten-character dashed date gives
/// that date back.
pub proof fn lemma_filename_date_roundtrip(market: Seq<char>, date: Seq<char>)
    requires
        date.len() == 10,
        date[4] == '-',
        date[7] == '-',
    ensures
        spec_extract_date(spec_wallpaper_filename(market, date)) == date,
{
    reveal_strlit("bing-");
    reveal_strlit(".jpg");
    let name = spec_wallpaper_filename(market, date);
    assert(name.subrange(name.len() - 4, name.len() as int) =~= ".jpg"@);
    let stem = spec_strip_ext(name);
    assert(stem =~= "bing-"@ + market + seq!['-'] + date);
    assert(stem[stem.len() - 6] == date[4]);
    assert(stem[stem.len() - 3] == date[7]);
    assert(stem.subrange(stem.len() - 10, stem.len() as int) =~= date);
}

/// Filename-date extraction round-trips with filename building: a file
/// named for a market and an eight-character feature date carries
/// exactly that date's dashed form.
pub proof fn lemma_feature_date_roundtrip(market: Seq<char>, feature: Seq<char>)
    requires
        feature.len() == 8,
    ensures
        spec_extract_date(spec_wallpaper_filename(market, crate::bing::spec_dashed_date(feature)))
            == crate::bing::spec_dashed_date(feature),
{
    crate::bing::lemma_dashed_date_shape(feature);
    lemma_filename_date_roundtrip(market, crate::bing::spec_dashed_date(feature));
}

/// The date embedded in a managed download's filename: present exactly
/// for names of the form `bing-...YYYY-MM-DD.jpg` naming a real date.
pub open spec fn spec_embedded_date(name: Seq<char>) -> Option<CivilDate> {
    if seq_starts_with(name, "bing-"@) && seq_ends_with(name, ".jpg"@) && name.len() >= 14 {
        spec_parse_date(name.subrange(name.len() - 14, name.len() - 4))
    } else {
        None
    }
}

/// Whether retention cleanup deletes this file: only managed downloads
/// whose embedded date lies strictly more than `keep_days` days before
/// `today`, and never when retention is off (`keep_days == 0`).
pub open spec fn spec_should_delete(name: Seq<char>, today: CivilDate, keep_days: u32) -> bool {
    keep_days > 0 && match spec_embedded_date(name) {
        Some(d) => d.spec_day_number() + keep_days < today.spec_day_number(),
        None => false,
    }
}

/// The retention decision for one filename.
pub fn should_delete(filename: &str, today: &CivilDate, keep_days: u32) -> (r: bool)
    requires
        today.wf(),
    ensures
        r == spec_should_delete(filename@, *today, keep_days),
{
    proof {
        reveal_strlit("bing-");
        reveal_strlit(".jpg");
    }
    if keep_days == 0 {
        return false;
    }
    if !str_starts_with(filename, "bing-") {
        return false;
    }
    if !str_ends_with(filename, ".jpg") {
        return false;
    }
    let n = filename.unicode_len();
    if n < 14 {
        return false;
    }
    let date_part = filename.substring_char(n - 14, n - 4);
    match parse_date(date_part) {
        None => false,
        Some(d) => {
            let fd = day_number(&d);
            let td = day_number(today);
            fd + (keep_days as u64) < td
        },
    }
}

/// The files a retention pass removes, out of a directory listing.
///
/// With `keep_days == 0` nothing is ever deleted, however old the
/// files; otherwise exactly the managed downloads dated strictly more
/// than `keep_days` days before `today` are returned for deletion.
pub fn cleanup_old_wallpapers(filenames: &Vec<String>, today: &CivilDate, keep_days: u32) -> (r:
    Vec<String>)
    requires
        today.wf(),
    ensures
        r@ == filenames@.filter(
            |name: String| spec_should_delete(name@, *today, keep_days),
        ),
        keep_days == 0 ==> r@.len() == 0,
{
    let ghost pred = |name: String| spec_should_delete(name@, *today, keep_days);
    let mut r: Vec<String> = Vec::new();
    let mut i: usize = 0;
    proof {
        assert(filenames@.subrange(0, 0).filter(pred) =~= Seq::<String>::empty());
    }
    while i < filenames.len()
        invariant
            today.wf(),
            i <= filenames@.len(),
            r@ == filenames@.subrange(0, i as int).filter(pred),
            pred == (|name: String| spec_should_delete(name@, *today, keep_days)),
            keep_days == 0 ==> r@.len() == 0,
        decreases filenames@.len() - i,
    {
        let name = &filenames[i];
        if should_delete(name.as_str(), today, keep_days) {
            r.push(name.clone());
        }
        proof {
            let prefix = filenames@.subrange(0, i as int);
            let prefix1 = filenames@.subrange(0, i + 1);
            assert(prefix1 =~= prefix.push(filenames@[i as int]));
            prefix.lemma_filter_push(filenames@[i as int], pred);
        }
        i += 1;
    }
    proof {
        assert(filenames@.subrange(0, filenames@.len() as int) =~= filenames@);
    }
    r
}

/// Whether a filename carries one of the image extensions the history
/// shows.
pub open spec fn spec_is_image(name: Seq<char>) -> bool {
    seq_ends_with(name, ".jpg"@) || seq_ends_with(name, ".jpeg"@) || seq_ends_with(name, ".png"@)
}

/// The image-file test for one directory entry.
pub fn is_image_filename(name: &str) -> (r: bool)
    ensures
        r == spec_is_image(name@),
{
    str_ends_with(name, ".jpg") || str_ends_with(name, ".jpeg") || str_ends_with(name, ".png")
}

/// How the history orders a file: by the real date its name carries,
/// most recent first. A name carrying no readable date has no place in
/// that order, so — by deliberate choice — all such names sort after
/// every dated one, rather than being interleaved by raw text, keeping
/// the dated downloads at the head of the list.
pub open spec fn spec_history_key(name: Seq<char>) -> int {
    match spec_parse_date(spec_extract_date(name)) {
        Some(d) => d.spec_day_number() + 1,
        None => 0,
    }
}

/// The history sort key of one filename.
pub fn history_key(name: &str) -> (r: u64)
    ensures
        r == spec_history_key(name@),
{
    let date = extract_date_from_filename(name);
    match parse_date(date.as_str()) {
        Some(d) => day_number(&d) + 1,
        None => 0,
    }
}

/// Inserting an element anywhere adds exactly it to the contents.
proof fn lemma_insert_to_multiset(s: Seq<String>, i: int, a: String)
    requires
        0 <= i <= s.len(),
    ensures
        s.insert(i, a).to_multiset() =~= s.to_multiset().insert(a),
{
    broadcast use vstd::seq_lib::group_seq_properties;
    broadcast use vstd::multiset::group_multiset_axioms;

    let pre = s.subrange(0, i);
    let post = s.subrange(i, s.len() as int);
    assert(s.insert(i, a) =~= pre + (seq![a] + post));
    assert(s =~= pre + post);
    vstd::seq_lib::lemma_multiset_commutative(pre, seq![a] + post);
    vstd::seq_lib::lemma_multiset_commutative(seq![a], post);
    vstd::seq_lib::lemma_multiset_commutative(pre, post);
    assert(seq![a] =~= Seq::<String>::empty().push(a));
    Seq::<String>::empty().to_multiset_ensures();
    assert(Seq::<String>::empty().to_multiset() =~= vstd::multiset::Multiset::<String>::empty());
    assert(seq![a].to_multiset() =~= vstd::multiset::Multiset::<String>::empty().insert(a));
}

/// The history order: later keys never follow earlier smaller ones.
pub open spec fn spec_sorted_desc(s: Seq<String>) -> bool {
    forall|i: int, j: int|
        0 <= i < j < s.len() ==> spec_history_key(s[i]@) >= spec_history_key(s[j]@)
}

/// Inserting `x` where everything before is at least its key and the
/// element displaced (if any) is below it keeps the order.
proof fn lemma_sorted_insert(old_out: Seq<String>, pos: int, x: String)
    requires
        0 <= pos <= old_out.len(),
        spec_sorted_desc(old_out),
        forall|t: int| 0 <= t < pos ==> spec_history_key(old_out[t]@) >= spec_history_key(x@),
        pos < old_out.len() ==> spec_history_key(old_out[pos]@) < spec_history_key(x@),
    ensures
        spec_sorted_desc(old_out.insert(pos, x)),
{
    let new_out = old_out.insert(pos, x);
    assert forall|i: int, j: int| 0 <= i < j < new_out.len() implies spec_history_key(new_out[i]@)
        >= spec_history_key(new_out[j]@) by {
        if i == pos {
            assert(new_out[i] == x);
            assert(new_out[j] == old_out[j - 1]);
            assert(spec_history_key(old_out[pos]@) >= spec_history_key(old_out[j - 1]@));
        } else if j == pos {
            assert(new_out[i] == old_out[i]);
            assert(new_out[j] == x);
        } else if i < pos && j > pos {
            assert(new_out[i] == old_out[i]);
            assert(new_out[j] == old_out[j - 1]);
            assert(spec_history_key(old_out[pos]@) >= spec_history_key(old_out[j - 1]@));
        } else if j < pos {
            assert(new_out[i] == old_out[i]);
            assert(new_out[j] == old_out[j]);
        } else {
            assert(new_out[i] == old_out[i - 1]);
            assert(new_out[j] == old_out[j - 1]);
        }
    }
}

/// Sort a directory listing for the history: dated files most recent
/// first, keeping exactly the given names.
pub fn sort_by_date_desc(v: Vec<String>) -> (r: Vec<String>)
    ensures
        r@.to_multiset() == v@.to_multiset(),
        r@.len() == v@.len(),
        spec_sorted_desc(r@),
{
    let mut src = v;
    let mut out: Vec<String> = Vec::new();
    proof {
        broadcast use vstd::multiset::group_multiset_axioms;

        assert(out@ =~= Seq::<String>::empty());
        Seq::<String>::empty().to_multiset_ensures();
        assert(out@.to_multiset().add(src@.to_multiset()) =~= src@.to_multiset());
    }
    while src.len() > 0
        invariant
            out@.to_multiset().add(src@.to_multiset()) == v@.to_multiset(),
            out@.len() + src@.len() == v@.len(),
            spec_sorted_desc(out@),
        decreases src@.len(),
    {
        let ghost old_src = src@;
        let x = match src.pop() {
            Some(x) => x,
            None => unreached(),
        };
        proof {
            assert(old_src =~= src@.push(x));
            vstd::seq_lib::to_multiset_build(src@, x);
        }
        let kx = history_key(x.as_str());
        let mut pos: usize = 0;
        while pos < out.len() && history_key(out[pos].as_str()) >= kx
            invariant
                pos <= out@.len(),
                kx == spec_history_key(x@),
                spec_sorted_desc(out@),
                forall|t: int| 0 <= t < pos ==> spec_history_key(out@[t]@) >= kx,
            decreases out@.len() - pos,
        {
            pos += 1;
        }
        let ghost old_out = out@;
        let ghost old_out_ms = out@.to_multiset();
        proof {
            lemma_insert_to_multiset(out@, pos as int, x);
            lemma_sorted_insert(out@, pos as int, x);
        }
        out.insert(pos, x);
        proof {
            broadcast use vstd::multiset::group_multiset_axioms;

            assert(out@.to_multiset().add(src@.to_multiset()) =~= old_out_ms.add(
                src@.to_multiset().insert(x),
            ));
        }
    }
    proof {
        assert(src@ =~= Seq::<String>::empty());
        Seq::<String>::empty().to_multiset_ensures();
        broadcast use vstd::multiset::group_multiset_axioms;

        assert(out@.to_multiset() =~= out@.to_multiset().add(src@.to_multiset()));
    }
    out
}

/// The image files of a directory listing, in listing order.
pub fn filter_image_files(filenames: &Vec<String>) -> (r: Vec<String>)
    ensures
        r@ == filenames@.filter(|name: String| spec_is_image(name@)),
{
    let ghost pred = |name: String| spec_is_image(name@);
    let mut r: Vec<String> = Vec::new();
    let mut i: usize = 0;
    proof {
        assert(filenames@.subrange(0, 0).filter(pred) =~= Seq::<String>::empty());
    }
    while i < filenames.len()
        invariant
            i <= filenames@.len(),
            r@ == filenames@.subrange(0, i as int).filter(pred),
            pred == (|name: String| spec_is_image(name@)),
        decreases filenames@.len() - i,
    {
        let name = &filenames[i];
        if is_image_filename(name.as_str()) {
            r.push(name.clone());
        }
        proof {
            let prefix = filenames@.subrange(0, i as int);
            let prefix1 = filenames@.subrange(0, i + 1);
            assert(prefix1 =~= prefix.push(filenames@[i as int]));
            prefix.lemma_filter_push(filenames@[i as int], pred);
        }
        i += 1;
    }
    proof {
        assert(filenames@.subrange(0, filenames@.len() as int) =~= filenames@);
    }
    r
}

/// History entries for the given filenames, in their order: each entry
/// joins the directory onto its name and carries the extracted date.
pub fn build_history(dir: &str, filenames: &Vec<String>) -> (r: Vec<WallpaperInfo>)
    ensures
        r@.len() == filenames@.len(),
        forall|i: int|
            0 <= i < r@.len() ==> #[trigger] r@[i].filename == filenames@[i] && r@[i].path@
                == spec_join_path(dir@, filenames@[i]@) && r@[i].date@ == spec_extract_date(
                filenames@[i]@,
            ),
{
    let mut r: Vec<WallpaperInfo> = Vec::new();
    let mut i: usize = 0;
    while i < filenames.len()
        invariant
            i <= filenames@.len(),
            r@.len() == i,
            forall|k: int|
                0 <= k < i ==> #[trigger] r@[k].filename == filenames@[k] && r@[k].path@
                    == spec_join_path(dir@, filenames@[k]@) && r@[k].date@ == spec_extract_date(
                    filenames@[k]@,
                ),
        decreases filenames@.len() - i,
    {
        let name = filenames[i].clone();
        let path = join_path(dir, name.as_str());
        let date = extract_date_from_filename(name.as_str());
        r.push(WallpaperInfo { path, filename: name, date });
        i += 1;
    }
    r
}

/// The download history of a directory listing: its image files, most
/// recent date first, each entry named, pathed and dated from its
/// filename.
pub fn scan_history(dir: &str, filenames: &Vec<String>) -> (r: Vec<WallpaperInfo>)
    ensures
        r@.map_values(|w: WallpaperInfo| w.filename).to_multiset() == filenames@.filter(
            |name: String| spec_is_image(name@),
        ).to_multiset(),
        forall|i: int|
            0 <= i < r@.len() ==> #[trigger] r@[i].path@ == spec_join_path(dir@, r@[i].filename@)
                && r@[i].date@ == spec_extract_date(r@[i].filename@),
        forall|i: int, j: int|
            0 <= i < j < r@.len() ==> spec_history_key(r@[i].filename@) >= spec_history_key(
                r@[j].filename@,
            ),
{
    let images = filter_image_files(filenames);
    let sorted = sort_by_date_desc(images);
    let r = build_history(dir, &sorted);
    proof {
        assert(r@.map_values(|w: WallpaperInfo| w.filename) =~= sorted@);
    }
    r
}

/// A history entry as the settings window names it.
pub struct HistoryItem {
    /// Full filesystem path to the image file.
    pub path: String,
    /// Just the filename.
    pub filename: String,
    /// Date extracted from the filename.
    pub date: String,
}

impl HistoryItem {
    /// The settings window's form of a history entry.
    pub fn of_info(info: WallpaperInfo) -> (r: HistoryItem)
        ensures
            r.path == info.path,
            r.filename == info.filename,
            r.date == info.date,
    {
        HistoryItem { path: info.path, filename: info.filename, date: info.date }
    }
}

/// Retention never deletes a file exactly `keep_days` days old.
pub proof fn lemma_exactly_n_days_old_kept(
    name: Seq<char>,
    today: CivilDate,
    keep_days: u32,
    d: CivilDate,
)
    requires
        spec_embedded_date(name) == Some(d),
        d.spec_day_number() + keep_days == today.spec_day_number(),
    ensures
        !spec_should_delete(name, today, keep_days),
{
}

} // verus!
