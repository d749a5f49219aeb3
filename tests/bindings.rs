use runtime::globals::define;
use runtime::iterator::{next_result, IteratorResult, JSIterator};

struct Countdown(u32);

impl JSIterator<u32> for Countdown {
    fn next_value(&mut self) -> Option<u32> {
        if self.0 == 0 {
            None
        } else {
            self.0 -= 1;
            Some(self.0)
        }
    }
}

#[test]
fn define_registers_classes() {
    let mut global = vec!["Object".to_string()];
    assert!(define(&mut global));
    assert_eq!(global, vec!["Object".to_string(), "AbortController".to_string(), "AbortSignal".to_string()]);
}

#[test]
fn iterator_steps_until_done() {
    let mut it = Countdown(2);
    let a = next_result(&mut it);
    assert_eq!((a.value, a.done), (Some(1), false));
    let b = next_result(&mut it);
    assert_eq!((b.value, b.done), (Some(0), false));
    let c = next_result(&mut it);
    assert_eq!((c.value, c.done), (None, true));
}

#[test]
fn iterator_result_from_next() {
    let r = IteratorResult::from_next(Some("x"));
    assert!(!r.done);
    let r: IteratorResult<&str> = IteratorResult::from_next(None);
    assert!(r.done);
}

use runtime::attribute::{keyword, AttributeError, Keyword, ParameterAttribute, ParameterAttributeArgument as PAA};

#[test]
fn keywords_are_recognised() {
    assert_eq!(keyword("this"), Some(Keyword::This));
    assert_eq!(keyword("varargs"), Some(Keyword::VarArgs));
    assert_eq!(keyword("convert"), Some(Keyword::Convert));
    assert_eq!(keyword("strict"), Some(Keyword::Strict));
    assert_eq!(keyword("This"), None);
}

#[test]
fn parameter_options_gathered() {
    let a = ParameterAttribute::from_arguments(vec![PAA::VarArgs, PAA::Convert("Clamp"), PAA::Strict, PAA::Strict]).unwrap();
    assert!(!a.this && a.varargs && a.strict);
    assert_eq!(a.convert, Some("Clamp"));
    let t = ParameterAttribute::<&str>::from_arguments(vec![PAA::This]).unwrap();
    assert!(t.this && !t.varargs && !t.strict && t.convert.is_none());
}

#[test]
fn parameter_options_refused() {
    assert_eq!(ParameterAttribute::<&str>::from_arguments(vec![PAA::This, PAA::This]).err(), Some(AttributeError::MultipleThis));
    assert_eq!(ParameterAttribute::<&str>::from_arguments(vec![PAA::VarArgs, PAA::VarArgs]).err(), Some(AttributeError::MultipleVarArgs));
    assert_eq!(ParameterAttribute::from_arguments(vec![PAA::Convert(1), PAA::Convert(2)]).err(), Some(AttributeError::MultipleConvert));
    assert_eq!(ParameterAttribute::<&str>::from_arguments(vec![PAA::This, PAA::Strict]).err(), Some(AttributeError::ThisWithOthers));
    assert_eq!(
        ParameterAttribute::<&str>::from_arguments(vec![PAA::This, PAA::VarArgs, PAA::VarArgs]).err(),
        Some(AttributeError::MultipleVarArgs)
    );
}

#[test]
fn convert_keeps_expression() {
    let a = ParameterAttribute::from_arguments(vec![PAA::Strict, PAA::Convert("EnforceRange")]).unwrap();
    assert_eq!(a.convert, Some("EnforceRange"));
}
