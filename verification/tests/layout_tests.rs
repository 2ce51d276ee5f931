use demonhide::geometry::Monitor;
use demonhide::layout::parse_monitors;

fn m(x: i64, y: i64, w: i64, h: i64, s: i64) -> Monitor {
    Monitor { x, y, width: w, height: h, scale: s }
}

#[test]
fn empty_content_yields_no_entries() {
    assert_eq!(parse_monitors(b""), Vec::<Monitor>::new());
}

#[test]
fn junk_content_yields_no_entries() {
    assert_eq!(parse_monitors(b"not xml at all < > <mon"), Vec::<Monitor>::new());
}

#[test]
fn one_full_logical_monitor() {
    let content = b"<logicalmonitor><x>1920</x><y>0</y><width>2560</width>\
                    <height>1440</height><scale>2</scale></logicalmonitor>";
    assert_eq!(parse_monitors(content), vec![m(1920, 0, 2560, 1440, 2)]);
}

#[test]
fn missing_fields_use_defaults() {
    let content = b"<logicalmonitor><x>100</x></logicalmonitor>";
    assert_eq!(parse_monitors(content), vec![m(100, 0, 1920, 1080, 1)]);
}

#[test]
fn mode_tags_are_an_alternative_for_size() {
    let content = b"<monitor><modewidth>2560</modewidth><modeheight>1440</modeheight></monitor>";
    assert_eq!(parse_monitors(content), vec![m(0, 0, 2560, 1440, 1)]);
}

#[test]
fn width_tag_wins_over_mode_width() {
    let content = b"<monitor><width>1024</width><modewidth>2560</modewidth></monitor>";
    assert_eq!(parse_monitors(content), vec![m(0, 0, 1024, 1080, 1)]);
}

#[test]
fn tags_are_matched_case_insensitively() {
    let content = b"<LogicalMonitor><X>5</X><Y>7</Y><Width>800</Width>\
                    <Height>600</Height><Scale>1</Scale></LogicalMonitor>";
    assert_eq!(parse_monitors(content), vec![m(5, 7, 800, 600, 1)]);
}

#[test]
fn whitespace_around_values_is_trimmed() {
    let content = b"<monitor><x> 10 </x><y>\n20\n</y></monitor>";
    assert_eq!(parse_monitors(content), vec![m(10, 20, 1920, 1080, 1)]);
}

#[test]
fn negative_position_is_kept() {
    let content = b"<monitor><x>-1920</x><y>0</y></monitor>";
    assert_eq!(parse_monitors(content), vec![m(-1920, 0, 1920, 1080, 1)]);
}

#[test]
fn negative_size_falls_back_to_default() {
    let content = b"<monitor><width>-5</width><height>-1</height><scale>-2</scale></monitor>";
    assert_eq!(parse_monitors(content), vec![m(0, 0, 1920, 1080, 1)]);
}

#[test]
fn unreadable_value_falls_back_to_default() {
    let content = b"<monitor><width>wide</width><x>4000000000</x></monitor>";
    assert_eq!(parse_monitors(content), vec![m(0, 0, 1920, 1080, 1)]);
}

#[test]
fn two_entries_in_file_order() {
    let content = b"<monitors><configuration>\
        <logicalmonitor><x>0</x><y>0</y><width>1920</width><height>1080</height><scale>1</scale></logicalmonitor>\
        <logicalmonitor><x>1920</x><y>0</y><width>1920</width><height>1080</height><scale>1</scale></logicalmonitor>\
        </configuration></monitors>";
    let mons = parse_monitors(content);
    // The enclosing <monitors> container has no matching closing tag of its
    // own shape, so only the two real entries come out, in file order.
    assert_eq!(mons.len(), 2);
    assert_eq!(mons[0], m(0, 0, 1920, 1080, 1));
    assert_eq!(mons[1], m(1920, 0, 1920, 1080, 1));
}

#[test]
fn unterminated_entry_is_skipped() {
    let content = b"<logicalmonitor><x>5</x>";
    assert_eq!(parse_monitors(content), Vec::<Monitor>::new());
}
