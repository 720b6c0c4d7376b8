use webpage_hit_counter::badge::{svg_badge, svg_image_response, BADGE_HEAD, BADGE_MIDDLE, BADGE_TAIL};

const BADGE_42: &str = r##"
<svg xmlns="http://www.w3.org/2000/svg" xmlns:xlink="http://www.w3.org/1999/xlink" 
width="82" height="20">
 <linearGradient id="smooth" x2="0" y2="100%">
   <stop offset="0" stop-color="#bbb" stop-opacity=".1"/>
   <stop offset="1" stop-opacity=".1"/>
 </linearGradient>

 <mask id="round">
   <rect width="82" height="20" rx="3" ry="3" fill="#fff"/>
 </mask>

 <g mask="url(#round)">
   <rect width="42" height="20" fill="#555555"/>
   <rect x="42" width="52" height="20" fill="#79C83D"/>
   <rect width="82" height="20" fill="url(#smooth)"/>
 </g>

 <g fill="#fff" text-anchor="middle" font-family="Verdana,DejaVu Sans,Geneva,sans-serif" font-size="11"> 
   <text x="18" y="15" fill="#010101" fill-opacity=".3">Hits</text>
   <text x="18" y="14" fill="#fff">Hits</text>
   <text x="60" y="15" fill="#010101" fill-opacity=".3">42</text>
   <text x="60" y="14" fill="#fff">42</text>
 </g>
</svg>    
    "##;

const BADGE_MINUS_7: &str = r##"
<svg xmlns="http://www.w3.org/2000/svg" xmlns:xlink="http://www.w3.org/1999/xlink" 
width="82" height="20">
 <linearGradient id="smooth" x2="0" y2="100%">
   <stop offset="0" stop-color="#bbb" stop-opacity=".1"/>
   <stop offset="1" stop-opacity=".1"/>
 </linearGradient>

 <mask id="round">
   <rect width="82" height="20" rx="3" ry="3" fill="#fff"/>
 </mask>

 <g mask="url(#round)">
   <rect width="42" height="20" fill="#555555"/>
   <rect x="42" width="52" height="20" fill="#79C83D"/>
   <rect width="82" height="20" fill="url(#smooth)"/>
 </g>

 <g fill="#fff" text-anchor="middle" font-family="Verdana,DejaVu Sans,Geneva,sans-serif" font-size="11"> 
   <text x="18" y="15" fill="#010101" fill-opacity=".3">Hits</text>
   <text x="18" y="14" fill="#fff">Hits</text>
   <text x="60" y="15" fill="#010101" fill-opacity=".3">-7</text>
   <text x="60" y="14" fill="#fff">-7</text>
 </g>
</svg>    
    "##;

#[test]
fn badge_shows_count_twice() {
    assert_eq!(svg_badge(42), BADGE_42);
}

#[test]
fn badge_of_negative_count() {
    assert_eq!(svg_badge(-7), BADGE_MINUS_7);
}

#[test]
fn badge_of_zero_and_extremes() {
    assert_eq!(svg_badge(0), format!("{BADGE_HEAD}0{BADGE_MIDDLE}0{BADGE_TAIL}"));
    assert_eq!(
        svg_badge(i32::MAX),
        format!("{BADGE_HEAD}2147483647{BADGE_MIDDLE}2147483647{BADGE_TAIL}")
    );
    assert_eq!(
        svg_badge(i32::MIN),
        format!("{BADGE_HEAD}-2147483648{BADGE_MIDDLE}-2147483648{BADGE_TAIL}")
    );
}

#[test]
fn badges_of_distinct_counts_differ() {
    assert_ne!(svg_badge(1), svg_badge(10));
    assert_ne!(svg_badge(12), svg_badge(-12));
}

#[test]
fn badge_response_forbids_caching() {
    let response = svg_image_response(555555);
    assert_eq!(response.status, 200);
    assert_eq!(response.content_type, "image/svg+xml");
    assert_eq!(
        response.cache_control,
        "no-cache, max-age=0, no-store, s-maxage=0, proxy-revalidate"
    );
    assert_eq!(response.pragma, "no-cache");
    assert_eq!(response.expires, "-1");
    assert_eq!(response.body, svg_badge(555555));
}

#[test]
fn badge_is_an_svg_document() {
    let body = svg_badge(3);
    assert!(body.starts_with("\n<svg xmlns=\"http://www.w3.org/2000/svg\""));
    assert!(body.trim_end().ends_with("</svg>"));
    assert!(body.contains(">3</text>"));
}
