//! The remote image source's data, and the naming of downloaded files.
//!
//! The network client itself lives outside the library; it hands over
//! the response fields as plain strings. Everything computed from them —
//! the full image URL, the choice of the first image, the deterministic
//! download filename built from the feature date — is verified here.

use vstd::prelude::*;

use crate::text::push_char;

verus! {

/// One image entry as the remote archive returns it.
pub struct BingImageData {
    /// Partial URL path, to be prefixed with the archive's domain.
    pub url: String,
    /// Copyright and attribution text.
    pub copyright: String,
    /// Image title.
    pub title: String,
    /// Date the image was featured, as `YYYYMMDD`.
    pub start_date: String,
}

/// The remote archive's response: a list of image entries.
pub struct BingApiResponse {
    pub images: Vec<BingImageData>,
}

/// An image ready for use: the URL is complete.
pub struct BingImage {
    pub url: String,
    pub copyright: String,
    pub title: String,
    /// Feature date, as `YYYYMMDD`.
    pub date: String,
}

/// The image that a raw entry converts to.
pub open spec fn image_of(data: BingImageData) -> BingImage {
    BingImage {
        url: data.url,
        copyright: data.copyright,
        title: data.title,
        date: data.start_date,
    }
}

/// The full URL of a converted entry.
pub open spec fn full_url(partial: Seq<char>) -> Seq<char> {
    "https://www.bing.com"@ + partial
}

impl BingImage {
    /// Complete a raw entry: prefix the archive's domain onto the
    /// partial URL and carry the other fields over.
    pub fn from_data(data: BingImageData) -> (r: BingImage)
        ensures
            r.url@ == full_url(data.url@),
            r.copyright == data.copyright,
            r.title == data.title,
            r.date == data.start_date,
    {
        let url = String::from_str("https://www.bing.com").concat(data.url.as_str());
        BingImage { url, copyright: data.copyright, title: data.title, date: data.start_date }
    }
}

/// Pick today's image out of a response: the first entry, completed; an
/// empty response is the error the caller reports.
pub fn first_image(resp: BingApiResponse) -> (r: Result<BingImage, String>)
    ensures
        match r {
            Ok(img) => resp.images@.len() > 0 && img.url@ == full_url(resp.images@[0].url@)
                && img.title == resp.images@[0].title && img.copyright == resp.images@[0].copyright
                && img.date == resp.images@[0].start_date,
            Err(e) => resp.images@.len() == 0 && e@ == "No images in Bing response"@,
        },
{
    let mut images = resp.images;
    if images.len() == 0 {
        Err(String::from_str("No images in Bing response"))
    } else {
        let data = images.remove(0);
        Ok(BingImage::from_data(data))
    }
}

/// `YYYYMMDD` reshaped to `YYYY-MM-DD`; any other shape passes through
/// unchanged, so an unexpected feature date still yields a usable name.
pub open spec fn spec_dashed_date(d: Seq<char>) -> Seq<char> {
    if d.len() == 8 {
        d.subrange(0, 4) + seq!['-'] + d.subrange(4, 6) + seq!['-'] + d.subrange(6, 8)
    } else {
        d
    }
}

/// Reshape a feature date `YYYYMMDD` to `YYYY-MM-DD`.
pub fn dashed_feature_date(date: &str) -> (r: String)
    ensures
        r@ == spec_dashed_date(date@),
{
    if date.unicode_len() == 8 {
        let mut out = String::new();
        out.append(date.substring_char(0, 4));
        push_char(&mut out, '-');
        out.append(date.substring_char(4, 6));
        push_char(&mut out, '-');
        out.append(date.substring_char(6, 8));
        proof {
            assert(out@ =~= spec_dashed_date(date@));
        }
        out
    } else {
        let r = date.to_owned();
        r
    }
}

/// The deterministic download filename for a market and a dashed date:
/// the same market and feature day always name the same file, which is
/// what makes a repeated fetch skip its download.
pub open spec fn spec_wallpaper_filename(market: Seq<char>, date: Seq<char>) -> Seq<char> {
    "bing-"@ + market + seq!['-'] + date + ".jpg"@
}

/// Build the download filename `bing-{market}-{date}.jpg`.
pub fn wallpaper_filename(market: &str, date: &str) -> (r: String)
    ensures
        r@ == spec_wallpaper_filename(market@, date@),
{
    let mut out = String::from_str("bing-");
    out.append(market);
    push_char(&mut out, '-');
    out.append(date);
    out.append(".jpg");
    proof {
        assert(out@ =~= spec_wallpaper_filename(market@, date@));
    }
    out
}

/// A dashed feature date has the ten-character `YYYY-MM-DD` shape.
pub proof fn lemma_dashed_date_shape(d: Seq<char>)
    requires
        d.len() == 8,
    ensures
        spec_dashed_date(d).len() == 10,
        spec_dashed_date(d)[4] == '-',
        spec_dashed_date(d)[7] == '-',
{
}

} // verus!
