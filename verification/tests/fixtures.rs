use icmpmolester::decimal::Millionths;
use icmpmolester::diagnostics::{
    extract_average_latency, extract_hop_count, extract_packet_loss, ping_report,
    traceroute_report,
};

#[test]
fn macos_ping_output() {
    let sample = "PING example.com (93.184.216.34): 56 data bytes\n\
                  64 bytes from 93.184.216.34: icmp_seq=0 ttl=56 time=14.105 ms\n\
                  64 bytes from 93.184.216.34: icmp_seq=1 ttl=56 time=16.312 ms\n\
                  \n\
                  --- example.com ping statistics ---\n\
                  2 packets transmitted, 2 packets received, 0.0% packet loss\n\
                  round-trip min/avg/max/stddev = 14.105/15.208/16.312/1.104 ms\n";
    assert_eq!(extract_packet_loss(sample), Some(Millionths(0)));
    assert_eq!(extract_average_latency(sample), Some(Millionths(15_208_000)));
}

#[test]
fn linux_ping_with_losses() {
    let sample = "PING 192.0.2.7 (192.0.2.7) 56(84) bytes of data.\n\
                  64 bytes from 192.0.2.7: icmp_seq=1 ttl=64 time=0.045 ms\n\
                  \n\
                  --- 192.0.2.7 ping statistics ---\n\
                  3 packets transmitted, 1 received, 66.6667% packet loss, time 2031ms\n\
                  rtt min/avg/max/mdev = 0.045/0.045/0.045/0.000 ms\n";
    assert_eq!(extract_packet_loss(sample), Some(Millionths(66_666_700)));
    assert_eq!(extract_average_latency(sample), Some(Millionths(45_000)));
}

#[test]
fn linux_ping_unreachable() {
    let sample = "PING 203.0.113.1 (203.0.113.1) 56(84) bytes of data.\n\
                  \n\
                  --- 203.0.113.1 ping statistics ---\n\
                  4 packets transmitted, 0 received, 100% packet loss, time 3069ms\n\n";
    let report = ping_report(false, sample.as_bytes(), b"");
    assert!(!report.success);
    assert_eq!(report.packet_loss_pct, Some(Millionths(100_000_000)));
    assert_eq!(report.average_latency_ms, None);
    assert_eq!(report.raw_output, sample);
}

#[test]
fn windows_ping_timed_out() {
    let sample = "\r\nPinging 203.0.113.1 with 32 bytes of data:\r\n\
                  Request timed out.\r\n\
                  Request timed out.\r\n\
                  \r\n\
                  Ping statistics for 203.0.113.1:\r\n    \
                  Packets: Sent = 2, Received = 0, Lost = 2 (100% loss),\r\n";
    assert_eq!(extract_packet_loss(sample), Some(Millionths(100_000_000)));
    assert_eq!(extract_average_latency(sample), None);
}

#[test]
fn windows_tracert_output() {
    let sample = "\r\nTracing route to example.com [93.184.216.34]\r\n\
                  over a maximum of 30 hops:\r\n\
                  \r\n  \
                  1    <1 ms    <1 ms    <1 ms  192.168.1.1\r\n  \
                  2     8 ms     7 ms     9 ms  10.20.0.1\r\n  \
                  3     *        *        *     Request timed out.\r\n  \
                  4    21 ms    20 ms    22 ms  93.184.216.34\r\n\
                  \r\nTrace complete.\r\n";
    assert_eq!(extract_hop_count(sample, "93.184.216.34"), Some(4));
    assert_eq!(extract_hop_count(sample, "10.20.0.1"), Some(2));
    assert_eq!(extract_hop_count(sample, "example.com"), Some(4));
    assert_eq!(extract_hop_count(sample, "198.51.100.1"), Some(4));
    assert_eq!(extract_hop_count(sample, "Request timed out"), Some(3));
}

#[test]
fn linux_traceroute_that_gives_up() {
    let sample = "traceroute to 203.0.113.9 (203.0.113.9), 5 hops max, 60 byte packets\n \
                  1  gateway (192.168.1.1)  0.411 ms  0.398 ms  0.389 ms\n \
                  2  * * *\n \
                  3  * * *\n \
                  4  * * *\n \
                  5  * * *\n";
    let report = traceroute_report("203.0.113.9", true, sample.as_bytes(), b"");
    assert!(report.success);
    assert_eq!(report.hop_count, Some(5));
    assert_eq!(report.raw_output, sample);
    assert_eq!(extract_hop_count(sample, "gateway"), Some(1));
}

#[test]
fn busybox_ping_output() {
    let sample = "PING 192.0.2.1 (192.0.2.1): 56 data bytes\n\
                  64 bytes from 192.0.2.1: seq=0 ttl=64 time=0.211 ms\n\
                  \n\
                  --- 192.0.2.1 ping statistics ---\n\
                  1 packets transmitted, 1 packets received, 0% packet loss\n\
                  round-trip min/avg/max = 0.211/0.211/0.211 ms\n";
    assert_eq!(extract_packet_loss(sample), Some(Millionths(0)));
    assert_eq!(extract_average_latency(sample), Some(Millionths(211_000)));
}
