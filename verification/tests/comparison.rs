use msr::{
    Comparator, Comparison, Decimal, IoCondition, IoError, IoState, Source, SyncIoSystem, Value,
};

fn dec(x: f64) -> Value {
    Value::Decimal(Decimal::from_bits(x.to_bits()))
}

const ALL: [Comparator; 6] = [
    Comparator::Less,
    Comparator::LessOrEqual,
    Comparator::Greater,
    Comparator::GreaterOrEqual,
    Comparator::Equal,
    Comparator::NotEqual,
];

fn table(left: Value, right: Value) -> Vec<bool> {
    ALL.iter().map(|c| c.eval(&left, &right)).collect()
}

#[test]
fn comparators_on_a_smaller_and_a_larger_number() {
    assert_eq!(table(dec(5.0), dec(5.1)), vec![true, true, false, false, false, true]);
    assert_eq!(table(dec(5.1), dec(5.0)), vec![false, false, true, true, false, true]);
}

#[test]
fn comparators_on_equal_numbers() {
    assert_eq!(table(dec(5.0), dec(5.0)), vec![false, true, false, true, true, false]);
    assert_eq!(table(dec(0.0), dec(-0.0)), vec![false, true, false, true, true, false]);
}

#[test]
fn comparators_on_bits() {
    let t = Value::Bit(true);
    let f = Value::Bit(false);
    assert_eq!(table(f, t), vec![true, true, false, false, false, true]);
    assert_eq!(table(t, f), vec![false, false, true, true, false, true]);
    assert_eq!(table(t, t), vec![false, true, false, true, true, false]);
}

#[test]
fn comparators_where_nothing_can_be_compared() {
    let only_ne = vec![false, false, false, false, false, true];
    assert_eq!(table(dec(f64::NAN), dec(1.0)), only_ne);
    assert_eq!(table(dec(1.0), dec(f64::NAN)), only_ne);
    assert_eq!(table(dec(f64::NAN), dec(f64::NAN)), only_ne);
    assert_eq!(table(Value::Bit(true), dec(1.0)), only_ne);
    assert_eq!(table(dec(0.0), Value::Bit(false)), only_ne);
}

#[test]
fn builders_make_the_comparison_they_are_named_after() {
    let l = || Source::In("l".into());
    let r = || Source::Const(dec(1.0));
    let expect = |cmp| Comparison { left: l(), cmp, right: r() };
    assert_eq!(l().cmp_eq(r()), expect(Comparator::Equal));
    assert_eq!(l().cmp_le(r()), expect(Comparator::LessOrEqual));
    assert_eq!(l().cmp_ge(r()), expect(Comparator::GreaterOrEqual));
    assert_eq!(l().cmp_ne(r()), expect(Comparator::NotEqual));
    assert_eq!(l().cmp_lt(r()), expect(Comparator::Less));
    assert_eq!(l().cmp_gt(r()), expect(Comparator::Greater));
    assert_ne!(l().cmp_gt(r()), r().cmp_gt(l()));
}

#[test]
fn sources_come_from_what_converts_into_a_value() {
    assert_eq!(Source::from(true), Source::Const(Value::Bit(true)));
    assert_eq!(Source::from(Decimal::from_bits(7)), Source::Const(Value::Decimal(Decimal::from_bits(7))));
    assert_eq!(Source::from(dec(2.0)), Source::Const(dec(2.0)));
    let s: Source = false.into();
    assert_eq!(s, Source::Const(Value::Bit(false)));
}

#[test]
fn a_source_resolves_at_the_time_of_the_call() {
    let mut io = IoState::default();
    let input = Source::In("a".into());
    let output = Source::Out("a".into());
    let constant = Source::Const(dec(9.0));

    assert_eq!(input.resolve(&mut io), Err(IoError::NotFound));
    assert_eq!(output.resolve(&mut io), Err(IoError::NotFound));
    assert_eq!(constant.resolve(&mut io), Ok(dec(9.0)));

    io.set_input("a", dec(1.0));
    io.write("a", &dec(2.0)).unwrap();
    assert_eq!(input.resolve(&mut io), Ok(dec(1.0)));
    assert_eq!(output.resolve(&mut io), Ok(dec(2.0)));

    io.set_input("a", dec(3.0));
    assert_eq!(input.resolve(&mut io), Ok(dec(3.0)));
    assert_eq!(output.resolve(&mut io), Ok(dec(2.0)));
    assert_eq!(constant.resolve(&mut io), Ok(dec(9.0)));
}

#[test]
fn x_greater_than_five() {
    let mut io = IoState::default();
    let x_gt_5 = Source::In("x".into()).cmp_gt(Source::Const(dec(5.0)));
    io.inputs.insert("x".into(), dec(5.0));
    assert_eq!(x_gt_5.eval(&mut io), Ok(false));
    io.inputs.insert("x".into(), dec(5.1));
    assert_eq!(x_gt_5.eval(&mut io), Ok(true));
}

#[test]
fn a_comparison_of_an_input_with_an_output() {
    let mut io = IoState::default();
    let c = Source::In("level".into()).cmp_le(Source::Out("limit".into()));
    assert_eq!(c.eval(&mut io), Err(IoError::NotFound));
    io.set_input("level", dec(1.5));
    assert_eq!(c.eval(&mut io), Err(IoError::NotFound));
    io.write("limit", &dec(1.5)).unwrap();
    assert_eq!(c.eval(&mut io), Ok(true));
    io.write("limit", &dec(1.0)).unwrap();
    assert_eq!(c.eval(&mut io), Ok(false));
}

/// An I/O system that notes every access and fails where it is told to.
struct Bus {
    log: Vec<String>,
    broken: Vec<&'static str>,
}

impl SyncIoSystem for Bus {
    fn read(&mut self, id: &str) -> Result<Value, IoError> {
        self.log.push(format!("read {id}"));
        if self.broken.contains(&id) {
            Err(IoError::Backend(format!("{id} timed out")))
        } else {
            Ok(dec(self.log.len() as f64))
        }
    }

    fn read_output(&mut self, id: &str) -> Result<Option<Value>, IoError> {
        self.log.push(format!("read_output {id}"));
        if self.broken.contains(&id) {
            Err(IoError::Backend(format!("{id} timed out")))
        } else {
            Ok(None)
        }
    }

    fn write(&mut self, id: &str, _value: &Value) -> Result<(), IoError> {
        self.log.push(format!("write {id}"));
        Ok(())
    }
}

#[test]
fn the_left_source_is_resolved_before_the_right() {
    let mut bus = Bus { log: vec![], broken: vec![] };
    let c = Source::In("a".into()).cmp_lt(Source::In("b".into()));
    // The bus answers 1.0 to the first read and 2.0 to the second.
    assert_eq!(c.eval(&mut bus), Ok(true));
    assert_eq!(bus.log, vec!["read a", "read b"]);

    let mut bus = Bus { log: vec![], broken: vec![] };
    let c = Source::In("a".into()).cmp_gt(Source::In("a".into()));
    // The same source resolved twice need not give the same value.
    assert_eq!(c.eval(&mut bus), Ok(false));
    assert_eq!(bus.log, vec!["read a", "read a"]);
}

#[test]
fn a_failing_left_source_ends_the_comparison() {
    let mut bus = Bus { log: vec![], broken: vec!["a"] };
    let c = Source::In("a".into()).cmp_lt(Source::In("b".into()));
    assert_eq!(c.eval(&mut bus), Err(IoError::Backend("a timed out".into())));
    assert_eq!(bus.log, vec!["read a"]);
}

#[test]
fn a_failing_right_source_fails_the_comparison() {
    let mut bus = Bus { log: vec![], broken: vec!["b"] };
    let c = Source::In("a".into()).cmp_lt(Source::Out("b".into()));
    assert_eq!(c.eval(&mut bus), Err(IoError::Backend("b timed out".into())));
    assert_eq!(bus.log, vec!["read a", "read_output b"]);
}

#[test]
fn an_output_without_a_value_is_not_found() {
    let mut bus = Bus { log: vec![], broken: vec![] };
    let c = Source::Out("a".into()).cmp_eq(Source::In("b".into()));
    assert_eq!(c.eval(&mut bus), Err(IoError::NotFound));
    assert_eq!(bus.log, vec!["read_output a"]);
}

#[test]
fn constants_need_no_io() {
    let mut bus = Bus { log: vec![], broken: vec!["x"] };
    let c = Source::Const(dec(1.0)).cmp_ne(Source::Const(Value::Bit(true)));
    assert_eq!(c.eval(&mut bus), Ok(true));
    assert!(bus.log.is_empty());
}
