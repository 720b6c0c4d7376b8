use webpage_hit_counter::server::{BIND_ADDRESS, PORT, SVG_IMAGE_ROUTE};

#[test]
fn server_address_and_route() {
    assert_eq!(BIND_ADDRESS, "0.0.0.0");
    assert_eq!(PORT, 8011);
    assert_eq!(SVG_IMAGE_ROUTE, "/webpage_hit_counter/get_svg_image/{webpage_id}.svg");
}
