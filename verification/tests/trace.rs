use cf_ddns::trace::{find_ip, DiscoveryError};

const TRACE: &str = "fl=29f127\nh=cloudflare.com\nip=203.0.113.9\nts=1700000000.123\n\
                     visit_scheme=https\nuag=reqwest\ncolo=FRA\nsliver=none\nhttp=http/2\n\
                     loc=DE\ntls=TLSv1.3\nsni=plaintext\nwarp=off\ngateway=off\nrbi=off\n\
                     kex=X25519\n";

#[test]
fn finds_the_address_in_a_trace() {
    assert_eq!(find_ip(TRACE), Ok("203.0.113.9".to_string()));
}

#[test]
fn a_trace_without_an_address_is_an_error() {
    assert_eq!(find_ip("fl=29f127\nh=cloudflare.com\nts=1\n"), Err(DiscoveryError::NoIpLine));
}

#[test]
fn an_empty_trace_is_an_error() {
    assert_eq!(find_ip(""), Err(DiscoveryError::NoIpLine));
}

#[test]
fn the_first_address_line_wins() {
    assert_eq!(find_ip("ip=198.51.100.1\nip=198.51.100.2\n"), Ok("198.51.100.1".to_string()));
}

#[test]
fn the_address_may_stand_in_the_first_line() {
    assert_eq!(find_ip("ip=192.0.2.1\nh=x\n"), Ok("192.0.2.1".to_string()));
}

#[test]
fn the_last_line_needs_no_line_feed() {
    assert_eq!(find_ip("h=x\nip=192.0.2.1"), Ok("192.0.2.1".to_string()));
}

#[test]
fn a_trace_of_one_line_without_line_feed() {
    assert_eq!(find_ip("ip=192.0.2.44"), Ok("192.0.2.44".to_string()));
}

#[test]
fn a_carriage_return_before_the_line_feed_is_no_part_of_the_address() {
    assert_eq!(find_ip("h=x\r\nip=192.0.2.1\r\nts=1\r\n"), Ok("192.0.2.1".to_string()));
}

#[test]
fn a_carriage_return_at_the_end_of_the_text_stays() {
    assert_eq!(find_ip("ip=192.0.2.1\r"), Ok("192.0.2.1\r".to_string()));
}

#[test]
fn only_one_carriage_return_is_taken_off() {
    assert_eq!(find_ip("ip=192.0.2.1\r\r\n"), Ok("192.0.2.1\r".to_string()));
}

#[test]
fn a_carriage_return_inside_a_line_breaks_no_line() {
    assert_eq!(find_ip("h=x\rip=192.0.2.1\n"), Err(DiscoveryError::NoIpLine));
}

#[test]
fn the_key_must_begin_the_line() {
    assert_eq!(find_ip(" ip=192.0.2.1\nzip=192.0.2.2\n"), Err(DiscoveryError::NoIpLine));
}

#[test]
fn the_key_is_matched_exactly() {
    assert_eq!(find_ip("IP=192.0.2.1\nip =192.0.2.2\nip\n=\nip"), Err(DiscoveryError::NoIpLine));
}

#[test]
fn an_empty_address_is_found_as_such() {
    assert_eq!(find_ip("ip=\n"), Ok(String::new()));
    assert_eq!(find_ip("ip="), Ok(String::new()));
    assert_eq!(find_ip("ip=\r\n"), Ok(String::new()));
}

#[test]
fn a_key_cut_short_by_its_line_ending_does_not_match() {
    assert_eq!(find_ip("ip\r\n"), Err(DiscoveryError::NoIpLine));
    assert_eq!(find_ip("i\np=1\n"), Err(DiscoveryError::NoIpLine));
}

#[test]
fn empty_lines_are_passed_over() {
    assert_eq!(find_ip("\n\n\r\nip=192.0.2.7\n\n"), Ok("192.0.2.7".to_string()));
}

#[test]
fn what_follows_the_key_is_taken_as_it_is() {
    assert_eq!(
        find_ip("ip=not an address=\u{e9}\u{1f600} \n"),
        Ok("not an address=\u{e9}\u{1f600} ".to_string())
    );
}

#[test]
fn characters_of_several_bytes_before_the_address_line() {
    assert_eq!(find_ip("loc=\u{e9}t\u{e9}\u{1f600}\nip=192.0.2.9\n"), Ok("192.0.2.9".to_string()));
}

#[test]
fn agrees_with_the_lines_of_std() {
    let bodies = [
        "",
        "\n",
        "ip=1",
        "ip=1\n",
        "ip=1\r\n",
        "ip=1\r",
        "a\nip=2\r\nb",
        "a\r\rip=3\n",
        "a\n\rip=4\n",
        "\rip=5\n",
        "a=b\nc=d\n",
        "ip\n=6",
        "x\u{1f600}\nip=\u{1f600}7\r\n",
    ];
    for body in bodies {
        let expected = body
            .lines()
            .find(|line| line.starts_with("ip="))
            .map(|line| line[3..].to_string())
            .ok_or(DiscoveryError::NoIpLine);
        assert_eq!(find_ip(body), expected, "{:?}", body);
    }
}
