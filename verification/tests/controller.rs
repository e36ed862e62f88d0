use msr::{Controller, ControllerConfig, ControllerType, TimeStepController};
use std::time::Duration;

/// Adds up what came in, weighted by the time it took.
struct Integrator {
    total: f64,
}

impl<'a> Controller<(f64, &'a Duration), f64> for Integrator {
    fn next(&mut self, input: (f64, &Duration)) -> f64 {
        let (actual, delta_t) = input;
        self.total += actual * delta_t.as_secs_f64();
        self.total
    }
}

/// Switches on above a threshold and off below it.
struct Switch {
    threshold: f64,
    on: bool,
}

impl Controller<f64, bool> for Switch {
    fn next(&mut self, input: f64) -> bool {
        self.on = input > self.threshold;
        self.on
    }
}

#[test]
fn a_controller_keeps_its_state_between_steps() {
    let mut switch = Switch { threshold: 2.0, on: false };
    assert_eq!(switch.next(2.5), true);
    assert!(switch.on);
    assert_eq!(switch.next(2.0), false);
    assert!(!switch.on);
}

#[test]
fn a_time_step_is_a_step_on_the_pair() {
    let mut direct = Integrator { total: 0.0 };
    let mut timed = Integrator { total: 0.0 };
    for (actual, millis) in [(5.0, 3000), (1.5, 250), (-2.0, 1000), (0.0, 0)] {
        let dt = Duration::from_millis(millis);
        let a = Controller::next(&mut direct, (actual, &dt));
        let b = TimeStepController::next(&mut timed, actual, &dt);
        assert_eq!(a, b);
        assert_eq!(direct.total, timed.total);
    }
    assert_eq!(direct.total, 13.375);
}

#[test]
fn a_time_step_controller_can_be_used_generically() {
    fn run<C: TimeStepController<f64, f64>>(controller: &mut C) -> f64 {
        controller.next(4.0, &Duration::from_secs(2))
    }
    let mut integrator = Integrator { total: 1.0 };
    assert_eq!(run(&mut integrator), 9.0);
}

#[test]
fn a_loop_has_one_of_two_kinds_of_controller() {
    let mut controllers: Vec<ControllerType<Integrator, Switch>> = vec![
        ControllerType::Pid(Integrator { total: 0.0 }),
        ControllerType::BangBang(Switch { threshold: 1.0, on: false }),
    ];
    let dt = Duration::from_secs(1);
    let mut outputs = vec![];
    for controller in controllers.iter_mut() {
        match controller {
            ControllerType::Pid(pid) => outputs.push(TimeStepController::next(pid, 2.0, &dt) > 1.0),
            ControllerType::BangBang(bang_bang) => outputs.push(bang_bang.next(0.5)),
        }
    }
    assert_eq!(outputs, vec![true, false]);

    let config: ControllerConfig<f64, (f64, f64)> = ControllerConfig::BangBang((1.0, 0.1));
    match config.clone() {
        ControllerConfig::BangBang((threshold, hysteresis)) => {
            assert_eq!(threshold, 1.0);
            assert_eq!(hysteresis, 0.1);
        }
        ControllerConfig::Pid(_) => panic!("a bang-bang configuration was made"),
    }
}
