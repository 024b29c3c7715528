use rule110::device::{DeviceAction, DeviceRun};

#[test]
fn schedule_alternates_buffers_and_reads_the_last_written() {
    let mut run = DeviceRun::new(3);
    assert_eq!(run.next_action(), DeviceAction::Launch(true));
    run.round_done();
    assert_eq!(run.next_action(), DeviceAction::Launch(false));
    run.round_done();
    assert_eq!(run.next_action(), DeviceAction::Launch(true));
    run.round_done();
    assert_eq!(run.next_action(), DeviceAction::ReadBack(false));
}

#[test]
fn schedule_with_no_rounds_reads_the_initial_buffer() {
    let run = DeviceRun::new(0);
    assert_eq!(run.next_action(), DeviceAction::ReadBack(true));
}

#[test]
fn schedule_readback_parity_follows_the_round_count() {
    for iterations in 0..9usize {
        let mut run = DeviceRun::new(iterations);
        let mut launches = 0;
        loop {
            match run.next_action() {
                DeviceAction::Launch(from_a) => {
                    assert_eq!(from_a, launches % 2 == 0);
                    run.round_done();
                    launches += 1;
                }
                DeviceAction::ReadBack(from_a) => {
                    assert_eq!(launches, iterations);
                    assert_eq!(from_a, iterations % 2 == 0);
                    break;
                }
            }
        }
    }
}
