use std::sync::{Arc, Mutex};

use asynchttp::response::{PollStatus, ResponseCell};
use asynchttp::stream::BodyStream;

#[test]
fn queued_requests_all_reach_ready_or_failed() {
    let pool = rayon::ThreadPoolBuilder::new().num_threads(2).build().unwrap();
    let n = 8usize;
    let cells: Vec<Arc<Mutex<ResponseCell<u64>>>> =
        (0..n).map(|_| Arc::new(Mutex::new(ResponseCell::new()))).collect();
    for (i, cell) in cells.iter().enumerate() {
        let cell = Arc::clone(cell);
        pool.spawn(move || {
            let mut guard = cell.lock().unwrap();
            if i % 2 == 0 {
                guard.fulfill(i as u64);
            } else {
                guard.fail(String::from("connection refused"));
            }
        });
    }
    loop {
        let mut settled = 0usize;
        for cell in &cells {
            if cell.lock().unwrap().poll() != PollStatus::Pending {
                settled += 1;
            }
        }
        if settled == n {
            break;
        }
    }
    for (i, cell) in cells.iter().enumerate() {
        let mut guard = cell.lock().unwrap();
        if i % 2 == 0 {
            assert_eq!(guard.poll(), PollStatus::Ready);
            assert_eq!(guard.take(), Ok(i as u64));
        } else {
            assert_eq!(guard.poll(), PollStatus::Failed);
        }
    }
}

#[test]
fn background_appends_drain_in_order() {
    let pool = rayon::ThreadPoolBuilder::new().num_threads(1).build().unwrap();
    let stream = Arc::new(Mutex::new(BodyStream::new_buffered()));
    {
        let stream = Arc::clone(&stream);
        pool.spawn(move || {
            let chunks: [&[u8]; 3] = [b"alpha ", b"beta ", b"gamma"];
            for chunk in chunks {
                let mut guard = stream.lock().unwrap();
                guard.append_chunk(chunk);
            }
            stream.lock().unwrap().finish(false);
        });
    }
    let mut collected: Vec<u8> = Vec::new();
    loop {
        let mut guard = stream.lock().unwrap();
        collected.extend(guard.poll().unwrap());
        if guard.is_done() {
            break;
        }
    }
    collected.extend(stream.lock().unwrap().poll().unwrap());
    assert_eq!(collected, b"alpha beta gamma".to_vec());
}
