//! The SVG badge that shows a page's hit count, and the HTTP response that
//! carries it.
use vstd::prelude::*;

use actix_web::http::header::CacheDirective;

use crate::decimal::{
    i32_to_decimal, int_decimal, lemma_int_decimal_injective, lemma_int_decimal_round_trip,
    nat_decimal, signed_decimal_value,
};

verus! {

/// The badge text before the first numeral of the count.
pub const BADGE_HEAD: &'static str = r##"
<svg xmlns="http://www.w3.org/2000/svg" xmlns:xlink="http://www.w3.org/1999/xlink" 
width="82" height="20">
 <linearGradient id="smooth" x2="0" y2="100%">
   <stop offset="0" stop-color="#bbb" stop-opacity=".1"/>
   <stop offset="1" stop-opacity=".1"/>
 </linearGradient>

 <mask id="round">
   <rect width="82" height="20" rx="3" ry="3" fill="#fff"/>
 </mask>

 <g mask="url(#round)">
   <rect width="42" height="20" fill="#555555"/>
   <rect x="42" width="52" height="20" fill="#79C83D"/>
   <rect width="82" height="20" fill="url(#smooth)"/>
 </g>

 <g fill="#fff" text-anchor="middle" font-family="Verdana,DejaVu Sans,Geneva,sans-serif" font-size="11"> 
   <text x="18" y="15" fill="#010101" fill-opacity=".3">Hits</text>
   <text x="18" y="14" fill="#fff">Hits</text>
   <text x="60" y="15" fill="#010101" fill-opacity=".3">"##;

/// The badge text between the two numerals of the count (the count is drawn
/// twice: once as a shadow, once in white).
pub const BADGE_MIDDLE: &'static str = r##"</text>
   <text x="60" y="14" fill="#fff">"##;

/// The badge text after the second numeral of the count.
pub const BADGE_TAIL: &'static str = r##"</text>
 </g>
</svg>    
    "##;

/// The SVG document of the badge for `count` hits.
pub open spec fn badge_svg(count: int) -> Seq<char> {
    BADGE_HEAD@ + int_decimal(count) + BADGE_MIDDLE@ + int_decimal(count) + BADGE_TAIL@
}

/// The SVG document of the badge that shows `hit_count`.
pub fn svg_badge(hit_count: i32) -> (svg: String)
    ensures
        svg@ == badge_svg(hit_count as int),
        shows_count(svg@, hit_count as int),
{
    proof {
        badge_texts_read_count(hit_count as int);
    }
    let numeral = i32_to_decimal(hit_count);
    let mut svg = String::from_str(BADGE_HEAD);
    svg.append(numeral.as_str());
    svg.append(BADGE_MIDDLE);
    svg.append(numeral.as_str());
    svg.append(BADGE_TAIL);
    svg
}

/// Whether `svg` is the badge template with the same numeral in both count
/// texts (the shadow and the white text), and that numeral is the decimal
/// numeral of `count`, which reads back as `count`.
pub open spec fn shows_count(svg: Seq<char>, count: int) -> bool {
    let h = BADGE_HEAD@.len() as int;
    let m = BADGE_MIDDLE@.len() as int;
    let t = BADGE_TAIL@.len() as int;
    let k = (svg.len() - h - m - t) / 2;
    &&& svg.len() == h + m + t + 2 * k
    &&& svg.subrange(0, h) == BADGE_HEAD@
    &&& svg.subrange(h + k, h + k + m) == BADGE_MIDDLE@
    &&& svg.subrange(svg.len() - t, svg.len() as int) == BADGE_TAIL@
    &&& svg.subrange(h, h + k) == int_decimal(count)
    &&& svg.subrange(h + k + m, h + k + m + k) == int_decimal(count)
    &&& signed_decimal_value(svg.subrange(h, h + k)) == count
    &&& signed_decimal_value(svg.subrange(h + k + m, h + k + m + k)) == count
}

/// Both count texts of the badge, the shadow and the white text, read as the
/// count, for every count; the rest of the badge is the fixed template.
pub proof fn badge_texts_read_count(count: int)
    ensures
        ({
            let svg = badge_svg(count);
            let h = BADGE_HEAD@.len() as int;
            let m = BADGE_MIDDLE@.len() as int;
            let t = BADGE_TAIL@.len() as int;
            let k = (svg.len() - h - m - t) / 2;
            &&& svg.len() == h + m + t + 2 * k
            &&& svg.subrange(0, h) == BADGE_HEAD@
            &&& svg.subrange(h + k, h + k + m) == BADGE_MIDDLE@
            &&& svg.subrange(svg.len() - t, svg.len() as int) == BADGE_TAIL@
            &&& svg.subrange(h, h + k) == int_decimal(count)
            &&& svg.subrange(h + k + m, h + k + m + k) == int_decimal(count)
            &&& signed_decimal_value(svg.subrange(h, h + k)) == count
            &&& signed_decimal_value(svg.subrange(h + k + m, h + k + m + k)) == count
        }),
        shows_count(badge_svg(count), count),
{
    let svg = badge_svg(count);
    let d = int_decimal(count);
    let h = BADGE_HEAD@.len() as int;
    let m = BADGE_MIDDLE@.len() as int;
    let t = BADGE_TAIL@.len() as int;
    let k = d.len() as int;
    assert(svg.len() == h + m + t + 2 * k);
    assert((svg.len() - h - m - t) / 2 == k);
    assert(svg.subrange(0, h) =~= BADGE_HEAD@);
    assert(svg.subrange(h, h + k) =~= d);
    assert(svg.subrange(h + k, h + k + m) =~= BADGE_MIDDLE@);
    assert(svg.subrange(h + k + m, h + k + m + k) =~= d);
    assert(svg.subrange(svg.len() - t, svg.len() as int) =~= BADGE_TAIL@);
    lemma_int_decimal_round_trip(count);
}

/// Distinct counts give distinct badges: the badge loses nothing of the count.
pub proof fn badge_shows_count(a: int, b: int)
    requires
        badge_svg(a) == badge_svg(b),
    ensures
        a == b,
{
    let da = int_decimal(a);
    let db = int_decimal(b);
    let h = BADGE_HEAD@.len() as int;
    let sa = badge_svg(a);
    let sb = badge_svg(b);
    assert(sa.len() == h + da.len() + BADGE_MIDDLE@.len() + da.len() + BADGE_TAIL@.len());
    assert(sb.len() == h + db.len() + BADGE_MIDDLE@.len() + db.len() + BADGE_TAIL@.len());
    assert(da.len() == db.len());
    assert(sa.subrange(h, h + da.len()) =~= da);
    assert(sb.subrange(h, h + db.len()) =~= db);
    lemma_int_decimal_injective(a, b);
}

/// One directive of a `Cache-Control` header.
#[derive(Clone, Copy, Debug, PartialEq, Eq)]
pub enum CacheRule {
    /// `no-cache`
    NoCache,
    /// `no-store`
    NoStore,
    /// `max-age=<seconds>`
    MaxAge(u32),
    /// `s-maxage=<seconds>`
    SMaxAge(u32),
    /// `proxy-revalidate`
    ProxyRevalidate,
}

/// How a directive is written in the header.
pub open spec fn cache_rule_text(rule: CacheRule) -> Seq<char> {
    match rule {
        CacheRule::NoCache => "no-cache"@,
        CacheRule::NoStore => "no-store"@,
        CacheRule::MaxAge(secs) => "max-age="@ + nat_decimal(secs as nat),
        CacheRule::SMaxAge(secs) => "s-maxage="@ + nat_decimal(secs as nat),
        CacheRule::ProxyRevalidate => "proxy-revalidate"@,
    }
}

/// The header value for a list of directives: the directives in order,
/// separated by a comma and a space.
pub open spec fn cache_control_text(rules: Seq<CacheRule>) -> Seq<char>
    decreases rules.len(),
{
    if rules.len() == 0 {
        Seq::empty()
    } else if rules.len() == 1 {
        cache_rule_text(rules[0])
    } else {
        cache_control_text(rules.drop_last()) + ", "@ + cache_rule_text(rules.last())
    }
}

/// Renders a `Cache-Control` value with actix-web.
///
/// Builds `actix_web::http::header::CacheControl` from the directives, one
/// `CacheDirective` for each rule, and formats it with its `Display` impl,
/// which writes each directive (`no-cache`, `max-age=N`, ...) and puts `", "`
/// between them (`fmt_comma_delimited` in actix-http).
#[verifier::external_body]
fn cache_control_header_value(rules: &Vec<CacheRule>) -> (value: String)
    ensures
        value@ == cache_control_text(rules@),
{
    let directives: Vec<CacheDirective> = rules.iter().map(|rule| match *rule {
        CacheRule::NoCache => CacheDirective::NoCache,
        CacheRule::NoStore => CacheDirective::NoStore,
        CacheRule::MaxAge(secs) => CacheDirective::MaxAge(secs),
        CacheRule::SMaxAge(secs) => CacheDirective::SMaxAge(secs),
        CacheRule::ProxyRevalidate => CacheDirective::ProxyRevalidate,
    }).collect();
    actix_web::http::header::CacheControl(directives).to_string()
}

/// The media type of an SVG image, as the `mime` crate writes it.
///
/// Formats `mime::IMAGE_SVG` with its `Display` impl; the crate defines that
/// constant from the source text `image/svg+xml` and displays that text.
#[verifier::external_body]
fn svg_media_type() -> (media_type: String)
    ensures
        media_type@ == "image/svg+xml"@,
{
    mime::IMAGE_SVG.to_string()
}

/// The directives that keep every cache from storing the badge, so that each
/// view of a page fetches a fresh count.
pub open spec fn badge_cache_rules() -> Seq<CacheRule> {
    seq![
        CacheRule::NoCache,
        CacheRule::MaxAge(0),
        CacheRule::NoStore,
        CacheRule::SMaxAge(0),
        CacheRule::ProxyRevalidate,
    ]
}

/// The HTTP response that carries a badge: status, header values and body.
pub struct SvgImageResponse {
    /// The status code.
    pub status: u16,
    /// The value of the `Content-Type` header.
    pub content_type: String,
    /// The value of the `Cache-Control` header.
    pub cache_control: String,
    /// The value of the `Pragma` header.
    pub pragma: String,
    /// The value of the `Expires` header.
    pub expires: String,
    /// The SVG document.
    pub body: String,
}

/// The response to a request for the badge of a page that has `hit_count`
/// hits: `200 OK`, an SVG image that no cache may keep, showing the count.
pub fn svg_image_response(hit_count: i32) -> (response: SvgImageResponse)
    ensures
        response.status == 200,
        response.content_type@ == "image/svg+xml"@,
        response.cache_control@ == cache_control_text(badge_cache_rules()),
        response.pragma@ == "no-cache"@,
        response.expires@ == "-1"@,
        response.body@ == badge_svg(hit_count as int),
{
    let mut rules: Vec<CacheRule> = Vec::new();
    rules.push(CacheRule::NoCache);
    rules.push(CacheRule::MaxAge(0));
    rules.push(CacheRule::NoStore);
    rules.push(CacheRule::SMaxAge(0));
    rules.push(CacheRule::ProxyRevalidate);
    assert(rules@ =~= badge_cache_rules());
    SvgImageResponse {
        status: 200,
        content_type: svg_media_type(),
        cache_control: cache_control_header_value(&rules),
        pragma: String::from_str("no-cache"),
        expires: String::from_str("-1"),
        body: svg_badge(hit_count),
    }
}

} // verus!
