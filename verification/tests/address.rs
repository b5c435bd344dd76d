use tapedeck::address::display_name;
use tapedeck::address::pad4_str;
use tapedeck::address::pulse_port;
use tapedeck::address::pulse_server;
use tapedeck::address::recording_path;
use tapedeck::address::screen_geometry;
use tapedeck::address::u32_to_dec;
use tapedeck::index;

#[test]
fn index_says_hello() {
    assert_eq!(index(), "hello");
}

#[test]
fn display_name_pads_to_four_digits() {
    assert_eq!(display_name(0), ":10000");
    assert_eq!(display_name(1), ":10001");
    assert_eq!(display_name(42), ":10042");
    assert_eq!(display_name(9999), ":19999");
}

#[test]
fn pulse_server_stays_in_lockstep_with_display() {
    assert_eq!(pulse_server(0), "tcp:localhost:10000");
    assert_eq!(pulse_server(1), "tcp:localhost:10001");
    assert_eq!(pulse_server(42), "tcp:localhost:10042");
    assert_eq!(pulse_server(9999), "tcp:localhost:19999");
}

#[test]
fn pulse_port_is_one_then_padded_id() {
    assert_eq!(pulse_port(0), "10000");
    assert_eq!(pulse_port(123), "10123");
    assert_eq!(pulse_port(9999), "19999");
}

#[test]
fn recording_path_embeds_unpadded_id() {
    assert_eq!(recording_path("/tmp", 1), "/tmp/recording-1.mp4");
    assert_eq!(recording_path("/var/rec", 9999), "/var/rec/recording-9999.mp4");
    assert_eq!(recording_path("", 0), "/recording-0.mp4");
}

#[test]
fn screen_geometry_formats_width_height_depth() {
    assert_eq!(screen_geometry(1920, 1080), "1920x1080x24");
    assert_eq!(screen_geometry(1, 1), "1x1x24");
    assert_eq!(screen_geometry(0, 0), "0x0x24");
}

#[test]
fn decimal_rendering_has_no_leading_zeros() {
    assert_eq!(u32_to_dec(0), "0");
    assert_eq!(u32_to_dec(7), "7");
    assert_eq!(u32_to_dec(10), "10");
    assert_eq!(u32_to_dec(10000), "10000");
    assert_eq!(u32_to_dec(4294967295), "4294967295");
}

#[test]
fn padded_rendering_is_always_four_digits() {
    assert_eq!(pad4_str(0), "0000");
    assert_eq!(pad4_str(7), "0007");
    assert_eq!(pad4_str(9999), "9999");
}
