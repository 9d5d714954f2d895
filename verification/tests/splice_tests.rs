use irc_relay::RelayPair;
use irc_relay::Splicer;

/// Drives one pump to completion: the source produces `payload` in chunks of
/// at most `read_chunk` bytes and then reports end-of-input; the destination
/// accepts at most `write_chunk` bytes per step. Returns the bytes the
/// destination observed and how often the half-close fired.
fn run_pump(payload: &[u8], read_chunk: usize, write_chunk: usize) -> (Vec<u8>, usize) {
    let mut pump = Splicer::new();
    let mut src_pos: usize = 0;
    let mut out: Vec<u8> = Vec::new();
    let mut shutdowns: usize = 0;
    let mut steps: usize = 0;

    while !pump.is_finished() {
        steps += 1;
        assert!(steps < 100 * (payload.len() + 2), "pump made no progress");

        // fill stage: read from the source whenever the pump asks for bytes
        let cap = pump.fill_capacity();
        if cap > 0 {
            let n = cap.min(read_chunk).min(payload.len() - src_pos);
            if n == 0 {
                // a zero-length read: permanent end-of-input
                pump.filled(&[]);
            } else {
                pump.filled(&payload[src_pos..src_pos + n]);
                src_pos += n;
            }
        }

        // drain stage: write to the destination whatever is pending
        let pending = pump.drain_pending();
        // backpressure bound: the buffer never holds more than its capacity
        assert!(pending.len() <= 4096);
        if !pending.is_empty() {
            let n = pending.len().min(write_chunk);
            out.extend_from_slice(&pending[..n]);
            pump.drained(n);
        }

        // shutdown stage: half-close once the source closed and all is out
        if pump.take_shutdown() {
            shutdowns += 1;
        }
    }

    (out, shutdowns)
}

#[test]
fn pump_preserves_bytes_across_arbitrary_chunking() {
    let payload: Vec<u8> = (0..10_000u32).map(|i| (i % 251) as u8).collect();
    let (out, shutdowns) = run_pump(&payload, 37, 4096);
    assert_eq!(out, payload);
    assert_eq!(shutdowns, 1);
}

#[test]
fn pump_preserves_bytes_with_chunks_larger_than_the_buffer() {
    let payload: Vec<u8> = (0..20_000u32).map(|i| (i % 13) as u8).collect();
    // the source offers far more than the buffer capacity at once; the pump
    // must clamp every read to the free region
    let (out, shutdowns) = run_pump(&payload, usize::MAX, 31);
    assert_eq!(out, payload);
    assert_eq!(shutdowns, 1);
}

#[test]
fn pump_finishes_on_immediate_eof() {
    let (out, shutdowns) = run_pump(&[], 37, 4096);
    assert_eq!(out, Vec::<u8>::new());
    assert_eq!(shutdowns, 1);
}

#[test]
fn stalled_destination_never_loses_or_overwrites_data() {
    let mut pump = Splicer::new();

    // the destination stalls: fill until the pump refuses more input
    let payload: Vec<u8> = (0..6_000u32).map(|i| (i % 7) as u8).collect();
    let mut src_pos: usize = 0;
    loop {
        let cap = pump.fill_capacity();
        if cap == 0 {
            break;
        }
        let n = cap.min(100).min(payload.len() - src_pos);
        assert!(n > 0);
        pump.filled(&payload[src_pos..src_pos + n]);
        src_pos += n;
    }

    // exactly the capacity was accepted, nothing was dropped or overwritten
    assert_eq!(src_pos, 4096);
    let pending = pump.drain_pending();
    assert_eq!(pending, payload[..4096].to_vec());

    // the destination accepts a little; exactly that much space frees up
    pump.drained(100);
    assert_eq!(pump.fill_capacity(), 0); // no wraparound: region stays used
    let pending = pump.drain_pending();
    assert_eq!(pending, payload[100..4096].to_vec());

    // a full drain resets the cursors and reclaims the whole capacity
    pump.drained(pending.len());
    assert_eq!(pump.fill_capacity(), 4096);
}

#[test]
fn eof_sequencing_half_closes_exactly_once() {
    let mut pump = Splicer::new();

    let cap = pump.fill_capacity();
    assert_eq!(cap, 4096);
    pump.filled(b"hello");

    // end-of-input with bytes still buffered: no half-close yet
    pump.filled(&[]);
    assert!(!pump.take_shutdown());
    assert!(!pump.is_finished());

    // drain to empty: the half-close fires exactly once
    let pending = pump.drain_pending();
    assert_eq!(pending, b"hello".to_vec());
    pump.drained(pending.len());
    assert!(pump.take_shutdown());
    assert!(pump.is_finished());

    // and never again
    assert!(!pump.take_shutdown());
    assert!(pump.is_finished());
    assert_eq!(pump.fill_capacity(), 0);
    assert_eq!(pump.drain_pending(), Vec::<u8>::new());
}

#[test]
fn relay_pair_finishes_only_when_both_directions_finish() {
    let mut pair = RelayPair::new();

    // direction A->B carries a payload; direction B->A closes immediately
    let payload: Vec<u8> = (0..10_000u32).map(|i| (i % 251) as u8).collect();
    let mut src_pos: usize = 0;
    let mut out: Vec<u8> = Vec::new();
    let mut steps: usize = 0;

    while !pair.is_done() {
        steps += 1;
        assert!(steps < 100 * (payload.len() + 2), "relay made no progress");

        // A->B reads in 37-byte chunks, B writes in 4096-byte chunks
        let cap = pair.a_to_b.fill_capacity();
        if cap > 0 {
            let n = cap.min(37).min(payload.len() - src_pos);
            if n == 0 {
                pair.a_to_b.filled(&[]);
            } else {
                pair.a_to_b.filled(&payload[src_pos..src_pos + n]);
                src_pos += n;
            }
        }
        let pending = pair.a_to_b.drain_pending();
        if !pending.is_empty() {
            let n = pending.len().min(4096);
            out.extend_from_slice(&pending[..n]);
            pair.a_to_b.drained(n);
        }
        pair.a_to_b.take_shutdown();

        // B->A sees end-of-input at once
        let cap = pair.b_to_a.fill_capacity();
        if cap > 0 {
            pair.b_to_a.filled(&[]);
        }
        pair.b_to_a.drain_pending();
        pair.b_to_a.take_shutdown();

        // one finished direction alone never completes the pair
        if pair.b_to_a.is_finished() && !pair.a_to_b.is_finished() {
            assert!(!pair.is_done());
        }
    }

    assert_eq!(out, payload);
    assert!(pair.a_to_b.is_finished());
    assert!(pair.b_to_a.is_finished());
}
