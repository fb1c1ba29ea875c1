use emb_esp_exp::icm42670p::{
    config, select, Icm42670P, Phase, Report, State, INT_STATUS_DRDY, PERIOD_MILLIS, PWR_MGMT0,
    SENSOR_DATA, SENSOR_DATA_LEN, WHO_AM_I,
};
use emb_esp_exp::transport::{Action, BusError, Completion, Step};

const IMU: u8 = 0x68;

fn config_write(addr: u8) -> Action {
    Action::Write { addr, bytes: vec![0x1F, 0x0F, 0x69, 0x69, 0x60, 0x05, 0x05] }
}

fn id_probe(addr: u8) -> Action {
    Action::WriteRead { addr, bytes: vec![0x75], len: 1 }
}

fn ready_check(addr: u8) -> Action {
    Action::WriteRead { addr, bytes: vec![0x39], len: 1 }
}

fn data_burst(addr: u8) -> Action {
    Action::WriteRead { addr, bytes: vec![0x09], len: 14 }
}

fn period() -> Action {
    Action::Delay { millis: 5 }
}

fn got(data: Vec<u8>) -> Completion {
    Completion::read(Ok(()), data)
}

fn lost(data: Vec<u8>) -> Completion {
    Completion::read(Err(BusError), data)
}

/// A driver that has been set up and waits for its first polling period.
fn polling_imu(addr: u8) -> Icm42670P {
    let mut imu = Icm42670P::new(addr);
    imu.task(&Completion::done());
    imu.task(&Completion::done());
    imu.task(&got(vec![0x67]));
    assert_eq!(imu.phase(), Phase::Period);
    imu
}

fn burst_with_accel(hi: u8, lo: u8) -> Vec<u8> {
    let mut data = vec![0xEE; 14];
    data[2] = hi;
    data[3] = lo;
    data
}

#[test]
fn imu_registers_and_lengths() {
    assert_eq!(PWR_MGMT0, 0x1F);
    assert_eq!(WHO_AM_I, 0x75);
    assert_eq!(INT_STATUS_DRDY, 0x39);
    assert_eq!(SENSOR_DATA, 0x09);
    assert_eq!(SENSOR_DATA_LEN, 14);
    assert_eq!(PERIOD_MILLIS, 5);
}

#[test]
fn imu_new_is_uninitialized() {
    let imu = Icm42670P::new(IMU);
    assert_eq!(imu.addr(), IMU);
    assert_eq!(imu.phase(), Phase::Uninitialized);
    assert_eq!(imu.state(), State::Uninitialized);
}

#[test]
fn imu_config_is_the_same_seven_bytes_every_time() {
    let first = config();
    let second = config();
    assert_eq!(first, vec![0x1F, 0x0F, 0x69, 0x69, 0x60, 0x05, 0x05]);
    assert_eq!(first.len(), 7);
    assert_eq!(first, second);
}

#[test]
fn imu_config_write_does_not_depend_on_the_driver() {
    let mut a = Icm42670P::new(0x68);
    let mut b = Icm42670P::new(0x69);
    let first = a.task(&Completion::done());
    let second = b.task(&lost(vec![1, 2, 3]));
    assert_eq!(first.action, config_write(0x68));
    assert_eq!(second.action, config_write(0x69));
}

#[test]
fn imu_select_is_the_register_alone() {
    assert_eq!(select(0x75), vec![0x75]);
    assert_eq!(select(0x00), vec![0x00]);
    assert_eq!(select(0xFF), vec![0xFF]);
}

#[test]
fn imu_setup_when_all_goes_well() {
    let mut imu = Icm42670P::new(IMU);

    let step = imu.task(&Completion::done());
    assert_eq!(step, Step { reports: vec![], action: config_write(IMU) });
    assert_eq!(imu.phase(), Phase::Configure);
    assert_eq!(imu.state(), State::Configuring);

    let step = imu.task(&Completion::done());
    assert_eq!(step, Step { reports: vec![Report::Configured], action: id_probe(IMU) });
    assert_eq!(imu.phase(), Phase::IdProbe);
    assert_eq!(imu.state(), State::Configuring);

    let step = imu.task(&got(vec![0x67]));
    assert_eq!(step, Step { reports: vec![Report::WhoAmI(0x67)], action: period() });
    assert_eq!(imu.phase(), Phase::Period);
    assert_eq!(imu.state(), State::Polling);
}

#[test]
fn imu_setup_goes_on_when_everything_fails() {
    let mut imu = Icm42670P::new(IMU);
    imu.task(&Completion::done());

    let step = imu.task(&Completion::failed());
    assert_eq!(
        step,
        Step { reports: vec![Report::ConfigureFailed, Report::Configured], action: id_probe(IMU) }
    );

    let step = imu.task(&lost(vec![0x00]));
    assert_eq!(
        step,
        Step { reports: vec![Report::IdProbeFailed, Report::WhoAmI(0x00)], action: period() }
    );
    assert_eq!(imu.state(), State::Polling);
}

#[test]
fn imu_first_completion_is_not_looked_at() {
    let mut a = Icm42670P::new(IMU);
    let mut b = Icm42670P::new(IMU);
    let step_a = a.task(&Completion::done());
    let step_b = b.task(&lost(vec![0xFF; 20]));
    assert_eq!(step_a, step_b);
    assert_eq!(a, b);
}

#[test]
fn imu_who_am_i_of_an_empty_buffer_is_zero() {
    let mut imu = Icm42670P::new(IMU);
    imu.task(&Completion::done());
    imu.task(&Completion::done());
    let step = imu.task(&Completion::failed());
    assert_eq!(step.reports, vec![Report::IdProbeFailed, Report::WhoAmI(0)]);
}

#[test]
fn imu_period_is_followed_by_the_ready_check() {
    let mut imu = polling_imu(IMU);
    let step = imu.task(&Completion::done());
    assert_eq!(step, Step { reports: vec![], action: ready_check(IMU) });
    assert_eq!(imu.phase(), Phase::ReadyCheck);
}

#[test]
fn imu_flag_clear_means_no_burst() {
    for status in [0x00u8, 0x02, 0xFE, 0x80] {
        let mut imu = polling_imu(IMU);
        imu.task(&Completion::done());
        let step = imu.task(&got(vec![status]));
        assert_eq!(step, Step { reports: vec![], action: period() });
        assert_eq!(imu.phase(), Phase::Period);
        let step = imu.task(&Completion::done());
        assert_eq!(step.action, ready_check(IMU));
    }
}

#[test]
fn imu_flag_set_means_one_burst() {
    for status in [0x01u8, 0x03, 0xFF, 0x81] {
        let mut imu = polling_imu(IMU);
        imu.task(&Completion::done());
        let step = imu.task(&got(vec![status]));
        assert_eq!(step, Step { reports: vec![], action: data_burst(IMU) });
        assert_eq!(imu.phase(), Phase::DataBurst);
        let step = imu.task(&got(burst_with_accel(0x01, 0x02)));
        assert_eq!(step, Step { reports: vec![Report::AccelX(0x0102)], action: period() });
        assert_eq!(imu.phase(), Phase::Period);
        let step = imu.task(&Completion::done());
        assert_eq!(step.action, ready_check(IMU));
    }
}

#[test]
fn imu_failed_ready_check_is_reported_and_its_buffer_used() {
    let mut imu = polling_imu(IMU);
    imu.task(&Completion::done());
    let step = imu.task(&lost(vec![0x00]));
    assert_eq!(step, Step { reports: vec![Report::ReadyCheckFailed], action: period() });

    imu.task(&Completion::done());
    let step = imu.task(&lost(vec![0x01]));
    assert_eq!(step, Step { reports: vec![Report::ReadyCheckFailed], action: data_burst(IMU) });
}

#[test]
fn imu_failed_ready_check_with_no_buffer_reads_flag_clear() {
    let mut imu = polling_imu(IMU);
    imu.task(&Completion::done());
    let step = imu.task(&Completion::failed());
    assert_eq!(step, Step { reports: vec![Report::ReadyCheckFailed], action: period() });
}

#[test]
fn imu_failed_burst_is_reported_and_its_buffer_used() {
    let mut imu = polling_imu(IMU);
    imu.task(&Completion::done());
    imu.task(&got(vec![0x01]));
    let step = imu.task(&lost(vec![0; 14]));
    assert_eq!(
        step,
        Step { reports: vec![Report::DataBurstFailed, Report::AccelX(0)], action: period() }
    );
    assert_eq!(imu.state(), State::Polling);
}

#[test]
fn imu_accel_is_signed_and_high_byte_first() {
    let cases: [(u8, u8, i16); 6] = [
        (0x00, 0x00, 0),
        (0x00, 0x01, 1),
        (0x7F, 0xFF, 32767),
        (0x80, 0x00, -32768),
        (0xFF, 0xFF, -1),
        (0xFE, 0x0C, -500),
    ];
    for (hi, lo, expected) in cases {
        let mut imu = polling_imu(IMU);
        imu.task(&Completion::done());
        imu.task(&got(vec![0x01]));
        let step = imu.task(&got(burst_with_accel(hi, lo)));
        assert_eq!(step.reports, vec![Report::AccelX(expected)]);
    }
}

#[test]
fn imu_accel_of_a_short_buffer_reads_missing_bytes_as_zero() {
    let mut imu = polling_imu(IMU);
    imu.task(&Completion::done());
    imu.task(&got(vec![0x01]));
    let step = imu.task(&got(vec![0xAA, 0xBB, 0x12]));
    assert_eq!(step.reports, vec![Report::AccelX(0x1200)]);
}

#[test]
fn imu_polls_without_end() {
    let mut imu = polling_imu(IMU);
    let mut bursts = 0;
    let mut checks = 0;
    for round in 0..200u32 {
        let step = imu.task(&Completion::done());
        assert_eq!(step.action, ready_check(IMU));
        checks += 1;
        let ready = round % 3 == 0;
        let step = imu.task(&got(vec![if ready { 1 } else { 0 }]));
        if ready {
            assert_eq!(step.action, data_burst(IMU));
            bursts += 1;
            let step = imu.task(&got(burst_with_accel(0, round as u8)));
            assert_eq!(step.reports, vec![Report::AccelX(round as u8 as i16)]);
            assert_eq!(step.action, period());
        } else {
            assert_eq!(step.action, period());
        }
        assert_eq!(imu.state(), State::Polling);
    }
    assert_eq!(checks, 200);
    assert_eq!(bursts, 67);
}

#[test]
fn imu_setup_yields_nothing_once_polling() {
    let mut imu = polling_imu(IMU);
    let before = polling_imu(IMU);
    assert_eq!(imu.setup(&Completion::done()), None);
    assert_eq!(imu, before);
    imu.task(&Completion::done());
    assert_eq!(imu.setup(&Completion::done()), None);
    assert_eq!(imu.phase(), Phase::ReadyCheck);
}

#[test]
fn imu_service_yields_nothing_before_polling() {
    let mut imu = Icm42670P::new(IMU);
    assert_eq!(imu.service(&Completion::done()), None);
    assert_eq!(imu.phase(), Phase::Uninitialized);
    imu.task(&Completion::done());
    assert_eq!(imu.service(&Completion::done()), None);
    assert_eq!(imu.phase(), Phase::Configure);
    imu.task(&Completion::done());
    assert_eq!(imu.service(&Completion::done()), None);
    assert_eq!(imu.phase(), Phase::IdProbe);
}

#[test]
fn imu_setup_then_service_is_task() {
    let mut by_task = Icm42670P::new(IMU);
    let mut by_parts = Icm42670P::new(IMU);
    let completions = [
        Completion::done(),
        Completion::failed(),
        got(vec![0x67]),
        Completion::done(),
        got(vec![0x01]),
        got(burst_with_accel(0x40, 0x00)),
        Completion::done(),
        got(vec![0x00]),
    ];
    for done in &completions {
        let expected = by_task.task(done);
        let step = match by_parts.setup(done) {
            Some(step) => step,
            None => by_parts.service(done).unwrap(),
        };
        assert_eq!(step, expected);
        assert_eq!(by_parts, by_task);
    }
}

#[test]
fn imu_keeps_its_address() {
    let mut imu = Icm42670P::new(0x69);
    let completions =
        [Completion::done(), Completion::done(), got(vec![0x67]), Completion::done(), got(vec![1])];
    for done in &completions {
        let step = imu.task(done);
        match step.action {
            Action::Write { addr, .. } | Action::WriteRead { addr, .. } | Action::Read { addr, .. } => {
                assert_eq!(addr, 0x69)
            }
            Action::Delay { .. } => {}
        }
        assert_eq!(imu.addr(), 0x69);
    }
}
