use std::collections::HashMap;

use dbfs_client::read::DownloadCursor;
use dbfs_client::wire::{classify_failure, decode_block, AddBlockRequest, PutRequest};
use dbfs_client::{
    plan_write, strip_dbfs_prefix, DbfsError, DbfsErrorCode, FileReader, FileStatus, Handle, LinePull, Pull,
    ReadStreamState, StreamPhase, WritePlan, CHUNK_SIZE, STREAM_BLOCK_SIZE,
};

/// An in-memory stand-in for the remote service.
#[derive(Default)]
struct Service {
    files: HashMap<String, Vec<u8>>,
    open: HashMap<u64, (String, Vec<u8>)>,
    next_handle: u64,
    appended: Vec<Vec<u8>>,
    closed: Vec<u64>,
    puts: usize,
    reads: usize,
    stats: usize,
    fail_append: Option<usize>,
}

fn not_found(path: &str) -> DbfsError {
    classify_failure(
        "https://host/api/2.0/dbfs/op".to_string(),
        "404 Not Found".to_string(),
        "{}".to_string(),
        Some((
            "RESOURCE_DOES_NOT_EXIST".to_string(),
            format!("No file or directory exists on path {}.", path),
        )),
    )
}

impl Service {
    fn put(&mut self, req: PutRequest) -> Result<(), DbfsError> {
        self.puts += 1;
        let data = decode_block(&req.contents)?;
        self.files.insert(req.path, data);
        Ok(())
    }

    fn create(&mut self, path: &str) -> Result<u64, DbfsError> {
        self.next_handle += 1;
        self.open.insert(self.next_handle, (path.to_string(), Vec::new()));
        Ok(self.next_handle)
    }

    fn add_block(&mut self, req: AddBlockRequest) -> Result<(), DbfsError> {
        if self.fail_append == Some(self.appended.len()) {
            self.appended.push(Vec::new());
            return Err(classify_failure(
                "u".to_string(),
                "400 Bad Request".to_string(),
                "{}".to_string(),
                Some(("MAX_BLOCK_SIZE_EXCEEDED".to_string(), "too large".to_string())),
            ));
        }
        let data = decode_block(&req.data)?;
        self.appended.push(data.clone());
        self.open.get_mut(&req.handle).unwrap().1.extend(data);
        Ok(())
    }

    fn close(&mut self, handle: u64) -> Result<(), DbfsError> {
        self.closed.push(handle);
        let (path, data) = self.open.remove(&handle).unwrap();
        self.files.insert(path, data);
        Ok(())
    }

    fn get_status(&mut self, path: &str) -> Result<FileStatus, DbfsError> {
        self.stats += 1;
        match self.files.get(path) {
            Some(d) => Ok(FileStatus {
                path: path.to_string(),
                is_dir: false,
                file_size: d.len() as u64,
                modification_time: 0,
            }),
            None => Err(not_found(path)),
        }
    }

    fn read(&mut self, path: &str, offset: usize, length: usize) -> Result<Vec<u8>, DbfsError> {
        self.reads += 1;
        let d = self.files.get(path).ok_or_else(|| not_found(path))?;
        let start = offset.min(d.len());
        let end = (offset + length).min(d.len());
        decode_block(&base64::encode(&d[start..end]))
    }

    fn delete(&mut self, path: &str) -> Result<(), DbfsError> {
        self.files.remove(path).map(|_| ()).ok_or_else(|| not_found(path))
    }
}

fn write_file(svc: &mut Service, path: &str, data: &[u8]) -> Result<(), DbfsError> {
    match plan_write(path, data.to_vec())? {
        WritePlan::Single { path, data } => svc.put(PutRequest::new(&path, &data, true)),
        WritePlan::Chunked(upload) => {
            let h = svc.create(upload.path())?;
            let mut open = upload.open(Handle(h));
            while let Some(block) = open.next_block() {
                let r = svc.add_block(AddBlockRequest::new(open.handle_id(), &block));
                open.record(r);
            }
            assert!(open.finished());
            let closing = open.close();
            let r = svc.close(closing.handle());
            closing.finish(r)
        }
    }
}

fn read_file(svc: &mut Service, path: &str) -> Result<Vec<u8>, DbfsError> {
    let path = strip_dbfs_prefix(path)?;
    let size = svc.get_status(path)?.file_size;
    let mut reader = FileReader::new(path, size);
    while let Some(req) = reader.next_read() {
        let block = svc.read(path, req.offset, req.length)?;
        reader.record(block);
    }
    Ok(reader.finish())
}

fn stat(svc: &mut Service, path: &str) -> Result<FileStatus, DbfsError> {
    let path = strip_dbfs_prefix(path)?;
    svc.get_status(path)
}

/// Answers the requests of a stream until it has bytes, has ended or failed.
fn drive(svc: &mut Service, s: &mut ReadStreamState) -> Pull {
    loop {
        let path = s.path().to_string();
        match s.pull() {
            Pull::ResolveSize => {
                let r = svc.get_status(&path).map(|st| st.file_size);
                s.on_status(r);
            }
            Pull::FetchBlock { offset, length } => {
                let r = svc.read(&path, offset as usize, length);
                s.on_block(r);
            }
            Pull::Waiting => panic!("nothing is in flight here"),
            other => return other,
        }
    }
}

fn stream_read(svc: &mut Service, path: &str, pull_size: usize) -> Result<Vec<u8>, DbfsError> {
    let mut s = ReadStreamState::new(path);
    let mut out = Vec::new();
    loop {
        match drive(svc, &mut s) {
            Pull::Ready => out.extend(s.take(pull_size)),
            Pull::End => return Ok(out),
            Pull::Failed(e) => return Err(e.unwrap()),
            _ => unreachable!(),
        }
    }
}

fn read_line(svc: &mut Service, s: &mut ReadStreamState, line: &mut Vec<u8>) -> Result<usize, DbfsError> {
    let before = line.len();
    loop {
        let path = s.path().to_string();
        match s.pull_line(line) {
            LinePull::Done => return Ok(line.len() - before),
            LinePull::More => {}
            LinePull::Other(Pull::ResolveSize) => {
                let r = svc.get_status(&path).map(|st| st.file_size);
                s.on_status(r);
            }
            LinePull::Other(Pull::FetchBlock { offset, length }) => {
                let r = svc.read(&path, offset as usize, length);
                s.on_block(r);
            }
            LinePull::Other(Pull::Failed(e)) => return Err(e.unwrap()),
            LinePull::Other(_) => panic!("nothing is in flight here"),
        }
    }
}

fn noise(n: usize) -> Vec<u8> {
    let mut x: u64 = 0x2545_f491_4f6c_dd1d;
    (0..n)
        .map(|_| {
            x = x.wrapping_mul(6364136223846793005).wrapping_add(1442695040888963407);
            (x >> 33) as u8
        })
        .collect()
}

#[test]
fn read_write_delete() {
    let mut client = Service::default();
    let expected = "foo\nbar\nbaz\nspam\n".as_bytes();
    write_file(&mut client, "/test_read_write_delete", expected).unwrap();
    let data = read_file(&mut client, "/test_read_write_delete").unwrap();
    assert_eq!(data, expected);
    assert_eq!(
        stat(&mut client, "/test_read_write_delete").unwrap().file_size,
        expected.len() as u64
    );
    client.delete(strip_dbfs_prefix("/test_read_write_delete").unwrap()).unwrap();
    let ret = read_file(&mut client, "/test_read_write_delete");
    assert!(matches!(
        ret,
        Err(DbfsError::DbfsApiError(
            DbfsErrorCode::ResourceDoesNotExist,
            ..
        ))
    ));
}

#[test]
fn large_file() {
    let expected = noise(1024 * 1024 * 2);
    let mut client = Service::default();
    write_file(&mut client, "dbfs:/large_file", &expected).unwrap();
    let buf = read_file(&mut client, "/large_file").unwrap();
    assert_eq!(buf, expected);
    assert_eq!(client.puts, 0);
    assert_eq!(client.appended.len(), 2);
}

#[test]
fn test_read() {
    let expected = noise(1024 * 1024 * 2 + 997);
    let mut client = Service::default();
    write_file(&mut client, "dbfs:/test_read", &expected).unwrap();

    let mut offset = 0;
    let mut s = ReadStreamState::new("dbfs:/test_read");
    loop {
        match drive(&mut client, &mut s) {
            Pull::Ready => {
                let got = s.take(1000);
                assert!(!got.is_empty() && got.len() <= 1000);
                assert_eq!(&got[..], &expected[offset..offset + got.len()]);
                offset += got.len();
            }
            Pull::End => break,
            _ => panic!("unexpected answer"),
        }
    }
    assert_eq!(offset, expected.len());
}

#[test]
fn test_read_line() {
    let expected: Vec<String> = (0..10).map(|n| format!("Line {}\n", n)).collect();
    let mut client = Service::default();
    write_file(&mut client, "dbfs:/test_read_line", expected.join("").as_bytes()).unwrap();

    let mut s = ReadStreamState::new("dbfs:/test_read_line");
    let mut line = Vec::new();
    let mut counter = 0;
    loop {
        let sz = read_line(&mut client, &mut s, &mut line).unwrap();
        if sz == 0 {
            break;
        }
        assert_eq!(String::from_utf8(line.clone()).unwrap(), format!("Line {}\n", counter));
        counter += 1;
        line.clear();
    }
    assert_eq!(counter, 10);
}

#[test]
fn round_trip_for_many_sizes() {
    for n in [0, 1, 17, CHUNK_SIZE - 1, CHUNK_SIZE, CHUNK_SIZE + 1, 3 * CHUNK_SIZE + 5] {
        let b = noise(n);
        let mut svc = Service::default();
        write_file(&mut svc, "/f", &b).unwrap();
        assert_eq!(read_file(&mut svc, "/f").unwrap(), b, "size {}", n);
    }
}

#[test]
fn small_write_is_one_put() {
    let mut svc = Service::default();
    write_file(&mut svc, "/small", &noise(CHUNK_SIZE - 1)).unwrap();
    assert_eq!(svc.puts, 1);
    assert!(svc.appended.is_empty());
    assert!(svc.closed.is_empty());
}

#[test]
fn chunked_write_appends_in_order_and_closes_once() {
    let b = noise(3 * CHUNK_SIZE + 5);
    let mut svc = Service::default();
    write_file(&mut svc, "/big", &b).unwrap();
    assert_eq!(svc.puts, 0);
    let lens: Vec<usize> = svc.appended.iter().map(|a| a.len()).collect();
    assert_eq!(lens, vec![CHUNK_SIZE, CHUNK_SIZE, CHUNK_SIZE, 5]);
    assert_eq!(svc.appended.concat(), b);
    assert_eq!(svc.closed, vec![1]);
}

#[test]
fn exact_chunk_size_write_is_one_block() {
    let b = noise(CHUNK_SIZE);
    let mut svc = Service::default();
    write_file(&mut svc, "/exact", &b).unwrap();
    assert_eq!(svc.appended.len(), 1);
    assert_eq!(svc.appended[0], b);
    assert_eq!(svc.closed.len(), 1);
}

#[test]
fn failed_append_still_closes_and_reports_it() {
    let b = noise(3 * CHUNK_SIZE);
    let mut svc = Service { fail_append: Some(1), ..Default::default() };
    let r = write_file(&mut svc, "/big", &b);
    assert!(matches!(r, Err(DbfsError::DbfsApiError(DbfsErrorCode::MaxBlockSizeExceeded, _))));
    // The remaining block was not sent; the handle was closed once.
    assert_eq!(svc.appended.len(), 2);
    assert_eq!(svc.closed, vec![1]);
}

#[test]
fn close_failure_is_reported() {
    let b = noise(CHUNK_SIZE + 1);
    let upload = match plan_write("/x", b).unwrap() {
        WritePlan::Chunked(u) => u,
        WritePlan::Single { .. } => panic!("expected blocks"),
    };
    assert_eq!(upload.path(), "/x");
    let mut open = upload.open(Handle(9));
    assert_eq!(open.handle_id(), 9);
    assert_eq!(open.next_block().unwrap().len(), CHUNK_SIZE);
    open.record(Ok(()));
    assert_eq!(open.next_block().unwrap().len(), 1);
    open.record(Ok(()));
    assert!(open.next_block().is_none());
    assert!(open.finished());
    let closing = open.close();
    assert_eq!(closing.handle(), 9);
    let r = closing.finish(Err(DbfsError::ReqwestError("connection reset".to_string())));
    assert!(matches!(r, Err(DbfsError::ReqwestError(m)) if m == "connection reset"));
}

#[test]
fn stream_matches_whole_file_read_for_any_pull_size() {
    let b = noise(3 * STREAM_BLOCK_SIZE + 123);
    let mut svc = Service::default();
    write_file(&mut svc, "/s", &b).unwrap();
    let whole = read_file(&mut svc, "/s").unwrap();
    for pull in [1, 17, 1000, 4096, 5000] {
        assert_eq!(stream_read(&mut svc, "dbfs:/s", pull).unwrap(), whole, "pull {}", pull);
    }
}

#[test]
fn empty_file_ends_at_first_pull_without_reads() {
    let mut svc = Service::default();
    write_file(&mut svc, "/empty", b"").unwrap();
    let reads_before = svc.reads;
    let mut s = ReadStreamState::new("/empty");
    assert!(matches!(drive(&mut svc, &mut s), Pull::End));
    assert_eq!(svc.reads, reads_before);
    assert!(s.take(10).is_empty());
    // The end of the stream is reported again, not a failure.
    assert!(matches!(s.pull(), Pull::End));
    assert_eq!(s.phase(), StreamPhase::Ended);
    // A whole-file read of an empty file makes no read request either.
    assert_eq!(read_file(&mut svc, "/empty").unwrap(), Vec::<u8>::new());
    assert_eq!(svc.reads, reads_before);
}

#[test]
fn line_reader_without_trailing_newline() {
    let mut svc = Service::default();
    write_file(&mut svc, "/lines", b"a\nbb\nccc").unwrap();
    let mut s = ReadStreamState::new("/lines");
    let mut lines = Vec::new();
    loop {
        let mut line = Vec::new();
        let n = read_line(&mut svc, &mut s, &mut line).unwrap();
        if n == 0 {
            break;
        }
        lines.push(String::from_utf8(line).unwrap());
    }
    assert_eq!(lines, vec!["a\n", "bb\n", "ccc"]);
}

#[test]
fn not_found_is_classified_for_read_stat_and_delete() {
    let mut svc = Service::default();
    let is_missing =
        |e: &DbfsError| matches!(e, DbfsError::DbfsApiError(DbfsErrorCode::ResourceDoesNotExist, _));
    assert!(is_missing(&read_file(&mut svc, "/nope").unwrap_err()));
    assert!(is_missing(&stat(&mut svc, "dbfs:/nope").unwrap_err()));
    assert!(is_missing(&svc.delete("/nope").unwrap_err()));
    assert!(is_missing(&stream_read(&mut svc, "/nope", 10).unwrap_err()));
}

#[test]
fn scheme_prefix_names_the_same_file() {
    let mut svc = Service::default();
    write_file(&mut svc, "dbfs:/a/b", b"xyz").unwrap();
    assert_eq!(read_file(&mut svc, "/a/b").unwrap(), b"xyz");
    assert_eq!(read_file(&mut svc, "dbfs:/a/b").unwrap(), b"xyz");
    assert_eq!(strip_dbfs_prefix("dbfs:/a/b").unwrap(), strip_dbfs_prefix("/a/b").unwrap());
    assert!(svc.files.contains_key("/a/b"));
}

#[test]
fn relative_path_fails_before_any_request() {
    let mut svc = Service::default();
    assert!(matches!(write_file(&mut svc, "a/b", b"x"), Err(DbfsError::InvalidDbfsPath(p)) if p == "a/b"));
    assert!(matches!(read_file(&mut svc, "dbfs:a/b"), Err(DbfsError::InvalidDbfsPath(_))));
    assert!(matches!(plan_write("x", vec![0u8; CHUNK_SIZE]), Err(DbfsError::InvalidDbfsPath(_))));
    let mut s = ReadStreamState::new("a/b");
    assert_eq!(s.phase(), StreamPhase::Failed);
    assert!(matches!(s.pull(), Pull::Failed(Some(DbfsError::InvalidDbfsPath(_)))));
    assert!(matches!(s.pull(), Pull::Failed(None)));
    assert_eq!(svc.stats + svc.reads + svc.puts, 0);
}

#[test]
fn stream_failure_is_terminal() {
    let mut s = ReadStreamState::new("/f");
    assert!(matches!(s.pull(), Pull::ResolveSize));
    assert!(matches!(s.pull(), Pull::Waiting));
    s.on_status(Ok(10000));
    match s.pull() {
        Pull::FetchBlock { offset, length } => {
            assert_eq!(offset, 0);
            assert_eq!(length, STREAM_BLOCK_SIZE);
        }
        _ => panic!("expected a block request"),
    }
    assert!(matches!(s.pull(), Pull::Waiting));
    s.on_block(Err(DbfsError::ReqwestError("timed out".to_string())));
    assert!(matches!(s.pull(), Pull::Failed(Some(DbfsError::ReqwestError(_)))));
    assert!(matches!(s.pull(), Pull::Failed(None)));
    assert!(s.take(10).is_empty());
}

#[test]
fn buffered_view_and_consume() {
    let mut s = ReadStreamState::new("/f");
    assert!(matches!(s.pull(), Pull::ResolveSize));
    s.on_status(Ok(5));
    assert!(matches!(s.pull(), Pull::FetchBlock { offset: 0, .. }));
    assert!(s.available().is_empty());
    // Bytes past the file size are dropped.
    s.on_block(Ok(b"hello world".to_vec()));
    assert!(matches!(s.pull(), Pull::Ready));
    assert_eq!(s.available(), b"hello");
    s.consume(2);
    assert_eq!(s.available(), b"llo");
    s.consume(100);
    assert!(s.available().is_empty());
    assert!(matches!(s.pull(), Pull::End));
}

#[test]
fn download_cursor_steps() {
    let mut c = DownloadCursor::new("/d", 2 * CHUNK_SIZE as u64 + 1);
    assert_eq!(c.path(), "/d");
    assert_eq!(c.next_read(), Some((0, CHUNK_SIZE)));
    c.advance(CHUNK_SIZE);
    assert_eq!(c.next_read(), Some((CHUNK_SIZE as u64, CHUNK_SIZE)));
    c.advance(CHUNK_SIZE);
    c.advance(1);
    assert_eq!(c.next_read(), None);
    let c = DownloadCursor::new("/e", 0);
    assert_eq!(c.next_read(), None);
}

#[test]
fn unfinished_upload_reports_so() {
    let mut open = match plan_write("/x", noise(2 * CHUNK_SIZE)).unwrap() {
        WritePlan::Chunked(u) => u.open(Handle(3)),
        WritePlan::Single { .. } => panic!("expected blocks"),
    };
    assert!(!open.finished());
    open.next_block().unwrap();
    assert!(!open.finished());
    open.record(Err(DbfsError::ReqwestError("reset".to_string())));
    assert!(open.finished());
    assert!(open.next_block().is_none());
}

#[test]
fn status_failure_is_reported_by_the_next_pull() {
    let mut s = ReadStreamState::new("dbfs:/f");
    assert_eq!(s.path(), "/f");
    assert!(matches!(s.pull(), Pull::ResolveSize));
    s.on_status(Err(DbfsError::DbfsApiError(DbfsErrorCode::ResourceDoesNotExist, "gone".to_string())));
    assert_eq!(s.phase(), StreamPhase::Failed);
    assert!(matches!(
        s.pull(),
        Pull::Failed(Some(DbfsError::DbfsApiError(DbfsErrorCode::ResourceDoesNotExist, m))) if m == "gone"
    ));
    assert!(matches!(s.pull(), Pull::Failed(None)));
}

#[test]
fn invalid_stream_path_reports_the_path() {
    let mut s = ReadStreamState::new("dbfs:abc");
    assert!(matches!(s.pull(), Pull::Failed(Some(DbfsError::InvalidDbfsPath(p))) if p == "dbfs:abc"));
}
