use rockscrew::relay::{Pump, PumpAction, RELAY_CHUNK};

/// Drives one pump over an in-memory source and sink: `source` is the
/// list of reads the source will yield (then end-of-stream), `sink_limit`
/// caps how many writes the sink accepts before reporting a zero-byte
/// write. Returns the bytes the sink received, in order, and whether the
/// pump closed cleanly.
fn drive(preface: Vec<u8>, source: &[&[u8]], sink_limit: usize) -> (Vec<u8>, bool) {
    let (mut pump, mut action) = Pump::start(preface);
    let mut next_read: usize = 0;
    let mut writes: usize = 0;
    let mut sink: Vec<u8> = Vec::new();
    loop {
        match action {
            PumpAction::Read => {
                let chunk: Vec<u8> = if next_read < source.len() {
                    source[next_read].to_vec()
                } else {
                    Vec::new()
                };
                next_read += 1;
                assert!(chunk.len() <= RELAY_CHUNK);
                action = pump.took(chunk);
            }
            PumpAction::Write(bytes) => {
                if writes < sink_limit {
                    writes += 1;
                    sink.extend_from_slice(&bytes);
                    action = pump.wrote(bytes.len());
                } else {
                    action = pump.wrote(0);
                }
            }
            PumpAction::Stop => {
                return (sink, next_read > source.len());
            }
        }
    }
}

#[test]
fn relays_all_bytes_in_order() {
    let (sink, clean) = drive(Vec::new(), &[b"hel", b"lo ", b"world"], usize::MAX);
    assert_eq!(sink, b"hello world".to_vec());
    assert!(clean);
}

#[test]
fn empty_source_closes_at_once() {
    let (sink, clean) = drive(Vec::new(), &[], usize::MAX);
    assert!(sink.is_empty());
    assert!(clean);
}

#[test]
fn preface_written_before_any_relayed_byte() {
    let (sink, clean) = drive(b"LEFTOVER".to_vec(), &[b"abc", b"def"], usize::MAX);
    assert_eq!(sink, b"LEFTOVERabcdef".to_vec());
    assert!(sink.starts_with(b"LEFTOVER"));
    assert!(clean);
}

#[test]
fn preface_alone_then_end_of_stream() {
    let (sink, clean) = drive(b"ONLY".to_vec(), &[], usize::MAX);
    assert_eq!(sink, b"ONLY".to_vec());
    assert!(clean);
}

#[test]
fn dead_sink_stops_without_error() {
    let (sink, clean) = drive(Vec::new(), &[b"first", b"second", b"third"], 1);
    assert_eq!(sink, b"first".to_vec());
    assert!(!clean, "a dead sink is not a clean end-of-stream");
}

#[test]
fn dead_sink_during_preface() {
    let (sink, _clean) = drive(b"PREFACE".to_vec(), &[b"data"], 0);
    assert!(sink.is_empty());
}

#[test]
fn two_pumps_do_not_mix_their_bytes() {
    let (mut up, mut up_action) = Pump::start(Vec::new());
    let (mut down, mut down_action) = Pump::start(b"HDR".to_vec());
    let up_reads: Vec<&[u8]> = vec![b"abc", b"def"];
    let down_reads: Vec<&[u8]> = vec![b"123"];
    let mut up_at: usize = 0;
    let mut down_at: usize = 0;
    let mut up_sink: Vec<u8> = Vec::new();
    let mut down_sink: Vec<u8> = Vec::new();
    // Alternate single steps of the two directions until both stop.
    let mut up_done = false;
    let mut down_done = false;
    while !up_done || !down_done {
        if !up_done {
            up_action = match up_action {
                PumpAction::Read => {
                    let chunk: Vec<u8> = if up_at < up_reads.len() {
                        up_reads[up_at].to_vec()
                    } else {
                        Vec::new()
                    };
                    up_at += 1;
                    up.took(chunk)
                }
                PumpAction::Write(bytes) => {
                    up_sink.extend_from_slice(&bytes);
                    up.wrote(bytes.len())
                }
                PumpAction::Stop => {
                    up_done = true;
                    PumpAction::Stop
                }
            };
        }
        if !down_done {
            down_action = match down_action {
                PumpAction::Read => {
                    let chunk: Vec<u8> = if down_at < down_reads.len() {
                        down_reads[down_at].to_vec()
                    } else {
                        Vec::new()
                    };
                    down_at += 1;
                    down.took(chunk)
                }
                PumpAction::Write(bytes) => {
                    down_sink.extend_from_slice(&bytes);
                    down.wrote(bytes.len())
                }
                PumpAction::Stop => {
                    down_done = true;
                    PumpAction::Stop
                }
            };
        }
    }
    assert_eq!(up_sink, b"abcdef".to_vec());
    assert_eq!(down_sink, b"HDR123".to_vec());
}
