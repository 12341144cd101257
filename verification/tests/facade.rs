use named_semaphore::unix;
use named_semaphore::guarded;
use named_semaphore::windows;
use named_semaphore::Action;
use named_semaphore::Cause;
use named_semaphore::Error;
use named_semaphore::Event;
use named_semaphore::Guarded;
use named_semaphore::NamedSemaphore;
use std::time::Duration;

type Posix = NamedSemaphore<unix::RawNamedSemaphore>;

type Windows = NamedSemaphore<windows::RawNamedSemaphore>;

fn posix(sem: usize) -> Posix {
    Posix::open(unix::Reply::Opened { sem }).unwrap()
}

fn win(handle: usize) -> Windows {
    Windows::open(windows::Reply::Created { handle }).unwrap()
}

fn status(ret: i32, errno: i32) -> Event<unix::Reply> {
    Event::Returned(unix::Reply::Status { ret, errno })
}

fn unexpected<C>() -> Action<C> {
    Action::Done(Err(Error::Unexpected))
}

#[test]
fn create_is_create_with_max_with_the_initial_value() {
    assert_eq!(Posix::create("/demo", 3), Posix::create_with_max("/demo", 3, 3));
    assert_eq!(Windows::create("demo", 3), Windows::create_with_max("demo", 3, 3));
    assert_eq!(
        Windows::create("demo", 3),
        Ok(windows::Call::CreateSemaphore {
            name: String::from("demo"),
            initial_count: 3,
            maximum_count: 3
        })
    );
    assert_eq!(
        Posix::create("/demo", 3),
        Ok(unix::Call::SemOpen { name: vec![b'/', b'd', b'e', b'm', b'o', 0], mode: 0o777, value: 3 })
    );
}

#[test]
fn create_refuses_a_name_with_a_zero_byte_on_every_backend() {
    assert_eq!(Posix::create("/de\0mo", 1), Err(Error::InvalidName));
    assert_eq!(Windows::create("de\0mo", 1), Err(Error::InvalidName));
    assert_eq!(Posix::create_with_max("/de\0mo", 1, 2), Err(Error::InvalidName));
    assert_eq!(Windows::create_with_max("de\0mo", 1, 2), Err(Error::InvalidName));
}

#[test]
fn create_refuses_a_posix_name_that_breaks_the_length_rule() {
    let long = format!("/{}", "n".repeat(250));
    assert_eq!(Posix::create(&long, 1), Err(Error::InvalidName));
    assert_eq!(Posix::create_with_max(&long, 1, 2), Err(Error::InvalidName));
    assert_eq!(Posix::create("", 1), Err(Error::InvalidName));
    assert_eq!(Posix::create_with_max("", 1, 2), Err(Error::InvalidName));
    let longest = format!("/{}", "n".repeat(249));
    assert!(Posix::create(&longest, 1).is_ok());
}

#[test]
fn create_refuses_a_count_out_of_range() {
    assert_eq!(Windows::create("demo", 2_147_483_648), Err(Error::InappropriateCount));
    assert_eq!(Windows::create_with_max("demo", 2_147_483_648, 1), Err(Error::InappropriateCount));
    assert_eq!(Posix::create("/demo", 2_147_483_648), Err(Error::InappropriateCount));
    assert_eq!(Posix::create_with_max("/demo", 1, 2_147_483_648), Err(Error::InappropriateCount));
}

#[test]
fn open_reports_a_failed_creation() {
    assert_eq!(
        Posix::open(unix::Reply::OpenFailed { errno: libc::EACCES }).unwrap_err(),
        Error::CreateFailed(Cause::Errno(libc::EACCES))
    );
    assert_eq!(
        Windows::open(windows::Reply::CreateFailed { last_error: 5 }).unwrap_err(),
        Error::CreateFailed(Cause::LastError(5))
    );
    assert_eq!(Posix::open(unix::Reply::Status { ret: 0, errno: 0 }).unwrap_err(), Error::Unexpected);
}

#[test]
fn wait_asks_for_the_call_and_ends_with_its_answer() {
    let mut sem = posix(64);
    assert_eq!(sem.wait(), Action::Call(unix::Call::SemWait { sem: 64 }));
    assert_eq!(sem.resume(status(0, 0)), Action::Done(Ok(())));
    assert_eq!(sem.wait(), Action::Call(unix::Call::SemWait { sem: 64 }));
    assert_eq!(
        sem.resume(status(-1, libc::EINVAL)),
        Action::Done(Err(Error::WaitFailed(Cause::Errno(libc::EINVAL))))
    );
}

#[test]
fn wait_is_made_again_for_every_interruption() {
    let mut sem = posix(64);
    assert_eq!(sem.wait(), Action::Call(unix::Call::SemWait { sem: 64 }));
    for _ in 0..5 {
        assert_eq!(
            sem.resume(status(-1, libc::EINTR)),
            Action::Call(unix::Call::SemWait { sem: 64 })
        );
    }
    assert_eq!(sem.resume(status(0, 0)), Action::Done(Ok(())));
    assert_eq!(sem.resume(status(0, 0)), unexpected());
}

#[test]
fn timed_wait_reads_the_clock_then_waits_until_the_deadline() {
    let mut sem = posix(64);
    assert_eq!(sem.timed_wait(Duration::new(2, 500_000_000)), Action::Call(unix::Call::ClockGettime));
    let now = unix::Timespec { sec: 1_700_000_000, nsec: 750_000_000 };
    assert_eq!(
        sem.resume(Event::Returned(unix::Reply::Time { ret: 0, errno: 0, now })),
        Action::Call(unix::Call::SemTimedwait {
            sem: 64,
            deadline: unix::Timespec { sec: 1_700_000_003, nsec: 250_000_000 }
        })
    );
    assert_eq!(sem.resume(status(-1, libc::ETIMEDOUT)), Action::Done(Err(Error::WaitTimeout)));
    assert_eq!(sem.try_wait(), Action::Call(unix::Call::SemTrywait { sem: 64 }));
}

#[test]
fn timed_wait_ends_when_the_deadline_is_out_of_range() {
    let mut sem = posix(64);
    assert_eq!(sem.timed_wait(Duration::MAX), Action::Call(unix::Call::ClockGettime));
    let now = unix::Timespec { sec: 1_700_000_000, nsec: 0 };
    assert_eq!(
        sem.resume(Event::Returned(unix::Reply::Time { ret: 0, errno: 0, now })),
        Action::Done(Err(Error::InvalidWaitTimeout))
    );
    assert_eq!(sem.post(), Action::Call(unix::Call::SemPost { sem: 64 }));
}

#[test]
fn timed_wait_on_windows_is_one_call() {
    let mut sem = win(12);
    assert_eq!(
        sem.timed_wait(Duration::from_millis(40)),
        Action::Call(windows::Call::WaitForSingleObject { handle: 12, milliseconds: 40 })
    );
    assert_eq!(
        sem.resume(Event::Returned(windows::Reply::Waited { event: 258, last_error: 0 })),
        Action::Done(Err(Error::WaitTimeout))
    );
}

#[test]
fn timed_wait_on_windows_waits_no_shorter_than_the_duration() {
    let mut sem = win(12);
    assert_eq!(
        sem.timed_wait(Duration::from_micros(1500)),
        Action::Call(windows::Call::WaitForSingleObject { handle: 12, milliseconds: 2 })
    );
}

#[test]
fn timed_wait_on_windows_is_not_the_wait_without_timeout() {
    let mut sem = win(12);
    assert_eq!(
        sem.timed_wait(Duration::new(4_294_967, 295_000_000)),
        Action::Done(Err(Error::InvalidWaitTimeout))
    );
    assert_eq!(
        sem.wait(),
        Action::Call(windows::Call::WaitForSingleObject { handle: 12, milliseconds: u32::MAX })
    );
}

#[test]
fn timed_wait_without_a_kernel_call_for_it_is_unsupported() {
    let mut sem = posix(64);
    assert_eq!(sem.timed_wait(Duration::from_millis(5)), Action::Call(unix::Call::ClockGettime));
    let now = unix::Timespec { sec: 1_700_000_000, nsec: 0 };
    assert_eq!(
        sem.resume(Event::Returned(unix::Reply::Time { ret: 0, errno: 0, now })),
        Action::Call(unix::Call::SemTimedwait {
            sem: 64,
            deadline: unix::Timespec { sec: 1_700_000_000, nsec: 5_000_000 }
        })
    );
    assert_eq!(
        sem.resume(Event::Returned(unix::Reply::Unsupported)),
        Action::Done(Err(Error::Unsupported))
    );
    assert_eq!(sem.try_wait(), Action::Call(unix::Call::SemTrywait { sem: 64 }));
}

#[test]
fn timed_wait_on_windows_refuses_a_duration_out_of_range() {
    let mut sem = win(12);
    assert_eq!(
        sem.timed_wait(Duration::from_secs(4_294_968)),
        Action::Done(Err(Error::InvalidWaitTimeout))
    );
    assert_eq!(
        sem.wait(),
        Action::Call(windows::Call::WaitForSingleObject { handle: 12, milliseconds: u32::MAX })
    );
}

#[test]
fn try_wait_reports_would_block() {
    let mut sem = posix(64);
    assert_eq!(sem.try_wait(), Action::Call(unix::Call::SemTrywait { sem: 64 }));
    assert_eq!(sem.resume(status(-1, libc::EAGAIN)), Action::Done(Err(Error::WouldBlock)));
    let mut sem = win(12);
    assert_eq!(
        sem.try_wait(),
        Action::Call(windows::Call::WaitForSingleObject { handle: 12, milliseconds: 0 })
    );
    assert_eq!(
        sem.resume(Event::Returned(windows::Reply::Waited { event: 258, last_error: 0 })),
        Action::Done(Err(Error::WouldBlock))
    );
}

#[test]
fn post_reports_its_failure() {
    let mut sem = posix(64);
    assert_eq!(sem.post(), Action::Call(unix::Call::SemPost { sem: 64 }));
    assert_eq!(
        sem.resume(status(-1, libc::EOVERFLOW)),
        Action::Done(Err(Error::PostFailed(Cause::Errno(libc::EOVERFLOW))))
    );
    let mut sem = win(12);
    assert_eq!(
        sem.post(),
        Action::Call(windows::Call::ReleaseSemaphore { handle: 12, release_count: 1 })
    );
    assert_eq!(
        sem.resume(Event::Returned(windows::Reply::Released { ok: false, last_error: 298 })),
        Action::Done(Err(Error::PostFailed(Cause::LastError(298))))
    );
}

#[test]
fn an_operation_cannot_begin_while_another_is_under_way() {
    let mut sem = posix(64);
    assert_eq!(sem.wait(), Action::Call(unix::Call::SemWait { sem: 64 }));
    assert_eq!(sem.wait(), unexpected());
    assert_eq!(sem.try_wait(), unexpected());
    assert_eq!(sem.timed_wait(Duration::from_secs(1)), unexpected());
    assert_eq!(sem.post(), unexpected());
    assert_eq!(sem.wait_then_post(), unexpected());
    assert_eq!(sem.resume(status(0, 0)), Action::Done(Ok(())));
    assert_eq!(sem.post(), Action::Call(unix::Call::SemPost { sem: 64 }));
}

#[test]
fn an_event_that_nothing_awaits_is_unexpected() {
    let mut sem = posix(64);
    assert_eq!(sem.resume(status(0, 0)), unexpected());
    assert_eq!(sem.resume(Event::Ran), unexpected());
    assert_eq!(sem.wait(), Action::Call(unix::Call::SemWait { sem: 64 }));
    assert_eq!(sem.resume(Event::Ran), unexpected());
    assert_eq!(sem.resume(status(0, 0)), Action::Done(Ok(())));
}

#[test]
fn wait_then_post_posts_after_the_action() {
    let mut sem = posix(64);
    assert_eq!(sem.wait_then_post(), Action::Call(unix::Call::SemWait { sem: 64 }));
    assert_eq!(sem.resume(status(0, 0)), Action::Run);
    assert_eq!(sem.resume(Event::Ran), Action::Call(unix::Call::SemPost { sem: 64 }));
    assert_eq!(sem.resume(status(0, 0)), Action::Done(Ok(())));
    assert_eq!(sem.wait(), Action::Call(unix::Call::SemWait { sem: 64 }));
}

#[test]
fn wait_then_post_on_windows_releases_by_one() {
    let mut sem = win(12);
    assert_eq!(
        sem.wait_then_post(),
        Action::Call(windows::Call::WaitForSingleObject { handle: 12, milliseconds: u32::MAX })
    );
    assert_eq!(
        sem.resume(Event::Returned(windows::Reply::Waited { event: 0, last_error: 0 })),
        Action::Run
    );
    assert_eq!(
        sem.resume(Event::Ran),
        Action::Call(windows::Call::ReleaseSemaphore { handle: 12, release_count: 1 })
    );
    assert_eq!(
        sem.resume(Event::Returned(windows::Reply::Released { ok: true, last_error: 0 })),
        Action::Done(Ok(()))
    );
}

#[test]
fn wait_then_post_neither_runs_nor_posts_when_the_wait_failed() {
    let mut sem = posix(64);
    assert_eq!(sem.wait_then_post(), Action::Call(unix::Call::SemWait { sem: 64 }));
    assert_eq!(
        sem.resume(status(-1, libc::EINVAL)),
        Action::Done(Err(Error::WaitFailed(Cause::Errno(libc::EINVAL))))
    );
    assert_eq!(sem.resume(Event::Ran), unexpected());
    assert_eq!(sem.resume(status(0, 0)), unexpected());
    let mut sem = win(12);
    sem.wait_then_post();
    assert_eq!(
        sem.resume(Event::Returned(windows::Reply::Waited { event: u32::MAX, last_error: 6 })),
        Action::Done(Err(Error::WaitFailed(Cause::LastError(6))))
    );
    assert_eq!(sem.resume(Event::Ran), unexpected());
}

#[test]
fn wait_then_post_waits_again_when_interrupted() {
    let mut sem = posix(64);
    assert_eq!(sem.wait_then_post(), Action::Call(unix::Call::SemWait { sem: 64 }));
    assert_eq!(sem.resume(status(-1, libc::EINTR)), Action::Call(unix::Call::SemWait { sem: 64 }));
    assert_eq!(sem.resume(Event::Ran), unexpected());
    assert_eq!(sem.resume(status(0, 0)), Action::Run);
}

#[test]
fn wait_then_post_owes_the_post_until_the_action_ran() {
    let mut sem = posix(64);
    sem.wait_then_post();
    assert_eq!(sem.resume(status(0, 0)), Action::Run);
    assert_eq!(sem.resume(status(0, 0)), unexpected());
    assert_eq!(sem.wait(), unexpected());
    assert_eq!(sem.post(), unexpected());
    assert_eq!(sem.wait_then_post(), unexpected());
    assert_eq!(sem.resume(Event::Ran), Action::Call(unix::Call::SemPost { sem: 64 }));
    assert_eq!(sem.resume(Event::Ran), unexpected());
    assert_eq!(sem.resume(status(0, 0)), Action::Done(Ok(())));
}

#[test]
fn wait_then_post_reports_a_failed_post() {
    let mut sem = posix(64);
    sem.wait_then_post();
    sem.resume(status(0, 0));
    sem.resume(Event::Ran);
    assert_eq!(
        sem.resume(status(-1, libc::EOVERFLOW)),
        Action::Done(Err(Error::PostFailed(Cause::Errno(libc::EOVERFLOW))))
    );
    assert_eq!(sem.try_wait(), Action::Call(unix::Call::SemTrywait { sem: 64 }));
}

#[test]
fn guarded_exposes_the_action_and_the_post_apart() {
    assert_eq!(guarded(Some(7), Ok(())), Ok(Guarded { output: 7, posted: Ok(()) }));
    let failed: Result<(), &str> = Err("the command failed");
    assert_eq!(guarded(Some(failed), Ok(())), Ok(Guarded { output: failed, posted: Ok(()) }));
    let post_failed = Err(Error::PostFailed(Cause::Errno(libc::EOVERFLOW)));
    assert_eq!(
        guarded(Some(failed), post_failed),
        Ok(Guarded { output: failed, posted: post_failed })
    );
    assert_eq!(guarded(Some(7), post_failed), Ok(Guarded { output: 7, posted: post_failed }));
}

#[test]
fn guarded_without_the_action_is_the_failure_of_the_wait() {
    let wait_failed = Error::WaitFailed(Cause::Errno(libc::EINVAL));
    assert_eq!(guarded::<u8>(None, Err(wait_failed)), Err(wait_failed));
    assert_eq!(guarded::<u8>(None, Err(Error::Unexpected)), Err(Error::Unexpected));
}

#[test]
fn guarded_without_the_action_and_without_a_failure_is_unexpected() {
    assert_eq!(guarded::<u8>(None, Ok(())), Err(Error::Unexpected));
}

#[test]
fn close_releases_the_handle() {
    assert_eq!(posix(64).close(), unix::Call::SemClose { sem: 64 });
    assert_eq!(win(12).close(), windows::Call::CloseHandle { handle: 12 });
    let mut sem = posix(65);
    sem.wait_then_post();
    sem.resume(status(0, 0));
    assert_eq!(sem.close(), unix::Call::SemClose { sem: 65 });
}
