use scavenger::buffers::BufferPool;
use scavenger::coordinator::account_for_nonce;
use scavenger::coordinator::decode_gensig;
use scavenger::coordinator::decode_hex;
use scavenger::coordinator::Coordinator;
use scavenger::coordinator::PlotOwner;
use scavenger::logger::to_log_level;
use scavenger::logger::LogLevel;
use scavenger::reader::ReadReply;
use scavenger::worker::pad;
use scavenger::worker::process_read_reply;

fn gensig_of(byte: u8) -> Vec<u8> {
    vec![byte; 32]
}

#[test]
fn pad_fills_tail_with_first_byte() {
    let mut b = vec![7u8; 1024];
    b[0] = 9;
    let r = pad(&mut b, 100, 512);
    assert_eq!(r, 412);
    assert_eq!(b[0], 9);
    for i in 1..100 {
        assert_eq!(b[i], 7);
    }
    for i in 100..512 {
        assert_eq!(b[i], 9);
    }
    for i in 512..1024 {
        assert_eq!(b[i], 7);
    }
}

#[test]
fn pad_noop_on_aligned_length() {
    let mut b = vec![3u8; 1024];
    assert_eq!(pad(&mut b, 512, 512), 0);
    assert!(b.iter().all(|&x| x == 3));
    assert_eq!(pad(&mut b, 0, 512), 0);
    assert!(b.iter().all(|&x| x == 3));
}

#[test]
fn worker_emits_candidate_for_real_offset() {
    let reply = ReadReply {
        buffer: vec![0u8; 1024],
        len: 1024,
        start_nonce: 40,
        height: 100,
        gensig: gensig_of(0),
        finished: true,
    };
    let nd = process_read_reply(&reply, 5000, 3);
    assert_eq!(nd.height, 100);
    assert_eq!(nd.deadline, 5000);
    assert_eq!(nd.nonce, 43);
    assert!(nd.reader_task_processed);
}

#[test]
fn worker_ignores_padding_offset() {
    // 100 valid bytes pad up to 512: offsets past the single real scoop
    // name no nonce and never improve a best deadline.
    let reply = ReadReply {
        buffer: vec![0u8; 1024],
        len: 64,
        start_nonce: 40,
        height: 100,
        gensig: gensig_of(0),
        finished: false,
    };
    let nd = process_read_reply(&reply, 1, 5);
    assert_eq!(nd.deadline, u64::MAX);
    assert_eq!(nd.nonce, 40);
    assert!(!nd.reader_task_processed);
}

#[test]
fn buffer_pool_circulates() {
    let mut pool = BufferPool::new(2, 1024);
    let a = pool.take().unwrap();
    let b = pool.take().unwrap();
    assert_eq!(a.len(), 1024);
    assert_eq!(b.len(), 1024);
    assert!(pool.take().is_none());
    pool.put(a);
    assert!(pool.take().is_some());
    pool.put(b);
}

#[test]
fn hex_decoding() {
    assert_eq!(decode_hex("00ff7a"), Some(vec![0x00, 0xff, 0x7a]));
    assert_eq!(decode_hex("00F"), None);
    assert_eq!(decode_hex("zz"), None);
    assert_eq!(decode_hex("AB"), Some(vec![0xab]));
    let g = decode_gensig(&"00".repeat(32)).unwrap();
    assert_eq!(g.len(), 32);
    assert!(decode_gensig("00ff").is_none());
}

#[test]
fn account_lookup_finds_owner() {
    let plots = vec![
        PlotOwner {
            account_id: 123,
            start_nonce: 0,
            nonces: 16,
        },
        PlotOwner {
            account_id: 456,
            start_nonce: 16,
            nonces: 4,
        },
    ];
    assert_eq!(account_for_nonce(&plots, 0), Some(123));
    assert_eq!(account_for_nonce(&plots, 15), Some(123));
    assert_eq!(account_for_nonce(&plots, 16), Some(456));
    assert_eq!(account_for_nonce(&plots, 20), None);
}

fn coordinator_with_one_plot() -> Coordinator {
    Coordinator::new(vec![PlotOwner {
        account_id: 123,
        start_nonce: 0,
        nonces: 16,
    }])
}

fn nonce_data(height: u64, deadline: u64, nonce: u64) -> scavenger::worker::NonceData {
    scavenger::worker::NonceData {
        height,
        deadline,
        nonce,
        reader_task_processed: false,
    }
}

#[test]
fn happy_path_one_submission() {
    // One plot, one round: the best candidate is submitted once, for a
    // nonce of the plot; a worse candidate after it is not.
    let mut c = coordinator_with_one_plot();
    assert!(c.on_mining_info(100, 1, u64::MAX, 0, gensig_of(0)));
    let sub = c.on_nonce_data(&nonce_data(100, 5000, 3)).unwrap();
    assert_eq!(sub.account_id, 123);
    assert_eq!(sub.nonce, 3);
    assert_eq!(sub.height, 100);
    assert_eq!(sub.deadline, 5000);
    assert!(sub.nonce < 16);
    assert!(c.on_nonce_data(&nonce_data(100, 6000, 4)).is_none());
    // A better candidate triggers another submission.
    let sub = c.on_nonce_data(&nonce_data(100, 400, 9)).unwrap();
    assert_eq!(sub.deadline, 400);
}

#[test]
fn new_round_preempts_and_drops_stale() {
    let mut c = coordinator_with_one_plot();
    assert!(c.on_mining_info(100, 1, u64::MAX, 0, gensig_of(1)));
    assert!(c.on_nonce_data(&nonce_data(100, 5000, 3)).is_some());
    // The same signature again does not start a round or reset the best.
    assert!(!c.on_mining_info(100, 1, u64::MAX, 0, gensig_of(1)));
    // A new signature replaces the round and resets the best deadline.
    assert!(c.on_mining_info(101, 1, u64::MAX, 7, gensig_of(2)));
    // Candidates of the replaced round never become submissions.
    assert!(c.on_nonce_data(&nonce_data(100, 10, 3)).is_none());
    // The first submission of the new round reflects it alone.
    let sub = c.on_nonce_data(&nonce_data(101, 7000, 5)).unwrap();
    assert_eq!(sub.height, 101);
    assert_eq!(sub.deadline, 7000);
}

#[test]
fn deadline_cap_filters_candidates() {
    let mut c = coordinator_with_one_plot();
    // target_deadline 10 at base_target 3: candidates above 30 never
    // submit, even though they improve the best-so-far.
    assert!(c.on_mining_info(100, 3, 10, 0, gensig_of(0)));
    assert!(c.on_nonce_data(&nonce_data(100, 31, 3)).is_none());
    assert!(c.on_nonce_data(&nonce_data(100, 30, 3)).is_some());
}

#[test]
fn log_level_names() {
    assert_eq!(to_log_level("trace", LogLevel::Info), LogLevel::Trace);
    assert_eq!(to_log_level("INFO", LogLevel::Warn), LogLevel::Info);
    assert_eq!(to_log_level("Warn", LogLevel::Info), LogLevel::Warn);
    assert_eq!(to_log_level("off", LogLevel::Info), LogLevel::Off);
    assert_eq!(to_log_level("garbage", LogLevel::Warn), LogLevel::Warn);
    assert_eq!(to_log_level("", LogLevel::Error), LogLevel::Error);
}

#[test]
fn end_to_end_round_over_one_plot() {
    // One plot of 16 nonces, one round: the reader plans one chunk for the
    // whole scoop region, the worker pads it and reports the kernel's
    // best, and the coordinator submits exactly that nonce.
    let mut plot = scavenger::plot::Plot::new("123_0_16", 16 * 4096 * 64, false).unwrap();
    let mut coordinator = coordinator_with_one_plot();
    let gensig = decode_gensig(&"00".repeat(32)).unwrap();
    assert!(coordinator.on_mining_info(100, 1, u64::MAX, 0, gensig.clone()));

    let seek = plot.prepare(0);
    assert_eq!(seek, 0);
    let mut pool = BufferPool::new(1, 1024);
    let mut buffer = pool.take().unwrap();
    let plan = plot.read(buffer.len(), 0);
    assert!(plan.finished);
    assert_eq!(plan.bytes_to_read, 1024);

    let reply = ReadReply {
        buffer: std::mem::take(&mut buffer),
        len: plan.bytes_to_read,
        start_nonce: plan.start_nonce,
        height: 100,
        gensig,
        finished: plan.finished,
    };
    let mut reply = reply;
    let padded = pad(&mut reply.buffer, reply.len, 512);
    assert_eq!(padded, 0);
    // The kernel is external; its result for this buffer is a given here.
    let (kernel_deadline, kernel_offset) = (4711u64, 9u64);
    let nd = process_read_reply(&reply, kernel_deadline, kernel_offset);
    assert!(nd.reader_task_processed);

    let sub = coordinator.on_nonce_data(&nd).unwrap();
    assert_eq!(sub.account_id, 123);
    assert!(sub.nonce < 16);
    assert_eq!(sub.nonce, 9);
    assert_eq!(sub.height, 100);
    assert_eq!(sub.deadline, 4711);

    let rh = scavenger::requests::RequestHandler::new("http://pool".to_string(), "", 1000);
    let path = rh.submit_nonce_path(sub.account_id, sub.nonce, sub.height, sub.deadline);
    assert_eq!(
        path,
        "/burst?requestType=submitNonce&accountId=123&nonce=9&secretPhrase=&blockheight=100&deadline=4711"
    );
    pool.put(reply.buffer);
}
