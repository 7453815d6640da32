use lib::callbacks::CallbackRegistry;
use lib::handles::{
    DEFAULT_GETTER_DESCRIPTOR_ID, DEFAULT_SETTER_DESCRIPTOR_ID, ENUMERABLE_DESCRIPTOR_ID,
    NULL_ID, OBJECT_CREATE_ID, UNENUMERABLE_DESCRIPTOR_ID, UNWRITABLE_DESCRIPTOR_ID,
    WRITABLE_DESCRIPTOR_ID,
    DEFAULT_DATA_DESCRIPTOR_ID, FUNCTION_PROTOTYPE_ID, GET_OWN_PROPERTY_DESCRIPTOR_ID, OBJECT_ID,
    TRUE_ID, TYPEOF_ID, UNCONFIGURABLE_DESCRIPTOR_ID, FALSE_ID,
};
use lib::setup::{
    standard_steps, Operand, SetupCall, SetupError, SetupKey, SetupRequest, SetupRunner, SetupStep,
};

#[test]
fn callbacks_are_known_by_their_position() {
    let mut r: CallbackRegistry<Box<dyn FnMut(u32) -> u32>> = CallbackRegistry::new();
    assert_eq!(r.len(), 0);
    assert_eq!(r.register(Box::new(|x| x + 1)), 0);
    assert_eq!(r.register(Box::new(|x| x * 10)), 1);
    assert_eq!(r.len(), 2);
    assert_eq!((r.get_mut(0))(4), 5);
    assert_eq!((r.get_mut(1))(4), 40);
}

#[test]
fn the_start_up_script_has_every_step() {
    let steps = standard_steps();
    assert_eq!(steps.len(), 52);
    assert!(matches!(
        steps[0].call,
        SetupCall::Get(Operand::Known(TYPEOF_ID), SetupKey::Name("__proto__"))
    ));
    assert_eq!(steps[0].expect, Some(FUNCTION_PROTOTYPE_ID));
    assert!(steps[1].keep);
    assert!(matches!(steps[17].call, SetupCall::Get(Operand::Earlier(3), SetupKey::Index(0))));
    assert!(matches!(
        steps[51].call,
        SetupCall::SetProp(
            Operand::Known(UNCONFIGURABLE_DESCRIPTOR_ID),
            SetupKey::Name("configurable"),
            Operand::Known(FALSE_ID)
        )
    ));
    assert_eq!(steps.iter().filter(|s| s.keep).count(), 6);
}

/// The answer that a well-behaved host gives: the reserved handle where one
/// is reserved, else a fresh handle.
fn answer(step: &SetupStep, fresh: &mut usize) -> usize {
    match step.expect {
        Some(e) => e,
        None => {
            *fresh += 1;
            *fresh
        },
    }
}

#[test]
fn start_up_runs_to_the_end_against_a_well_behaved_host() {
    let steps = standard_steps();
    let mut runner = SetupRunner::standard();
    let mut fresh = 5000usize;
    let mut kept = Vec::new();
    let mut i = 0;
    while let Some(req) = runner.next_request().unwrap() {
        if i == 13 {
            assert!(matches!(
                req,
                SetupRequest::Call2(GET_OWN_PROPERTY_DESCRIPTOR_ID, h, SetupKey::Name("__proto__")) if h == kept[0]
            ));
        }
        if i == 29 {
            assert!(matches!(req, SetupRequest::Call1(_, _)));
        }
        if i == 30 {
            assert!(matches!(
                req,
                SetupRequest::SetProp(DEFAULT_DATA_DESCRIPTOR_ID, SetupKey::Name("writable"), TRUE_ID)
            ));
        }
        let reply = answer(&steps[i], &mut fresh);
        if steps[i].keep {
            kept.push(reply);
        }
        runner.record(reply).unwrap();
        i += 1;
    }
    assert_eq!(i, 52);
    assert!(runner.finished());
    assert!(matches!(runner.record(0), Err(SetupError::Finished)));
}

#[test]
fn start_up_stops_on_a_wrong_handle() {
    let mut runner = SetupRunner::standard();
    assert!(matches!(
        runner.next_request(),
        Ok(Some(SetupRequest::Get(TYPEOF_ID, SetupKey::Name("__proto__"))))
    ));
    match runner.record(FUNCTION_PROTOTYPE_ID + 1) {
        Err(SetupError::Unexpected { step, expected, got }) => {
            assert_eq!(step, 0);
            assert_eq!(expected, FUNCTION_PROTOTYPE_ID);
            assert_eq!(got, FUNCTION_PROTOTYPE_ID + 1);
        },
        other => panic!("{:?}", other),
    }
    assert!(!runner.finished());
    assert!(matches!(runner.next_request(), Ok(Some(SetupRequest::Get(TYPEOF_ID, _)))));
}

#[test]
fn a_script_that_names_an_unkept_answer_is_refused() {
    let steps = vec![SetupStep {
        call: SetupCall::Get(Operand::Earlier(0), SetupKey::Name("x")),
        expect: None,
        keep: false,
    }];
    let runner = SetupRunner::new(steps);
    assert!(matches!(runner.next_request(), Err(SetupError::Dangling { step: 0 })));
    let steps = vec![
        SetupStep { call: SetupCall::Call0(Operand::Known(OBJECT_ID)), expect: None, keep: true },
        SetupStep { call: SetupCall::Call1(Operand::Earlier(0), Operand::Known(3)), expect: None, keep: false },
    ];
    let mut runner = SetupRunner::new(steps);
    runner.record(44).unwrap();
    assert!(matches!(runner.next_request(), Ok(Some(SetupRequest::Call1(44, 3)))));
}

#[test]
fn start_up_fills_the_descriptor_templates() {
    let steps = standard_steps();
    let sets: Vec<(usize, &str, usize)> = steps
        .iter()
        .filter_map(|s| match s.call {
            SetupCall::SetProp(Operand::Known(t), SetupKey::Name(n), Operand::Known(v)) => Some((t, n, v)),
            _ => None,
        })
        .collect();
    assert_eq!(
        sets,
        vec![
            (DEFAULT_DATA_DESCRIPTOR_ID, "writable", TRUE_ID),
            (DEFAULT_DATA_DESCRIPTOR_ID, "enumerable", TRUE_ID),
            (DEFAULT_DATA_DESCRIPTOR_ID, "configurable", TRUE_ID),
            (DEFAULT_GETTER_DESCRIPTOR_ID, "enumerable", TRUE_ID),
            (DEFAULT_GETTER_DESCRIPTOR_ID, "configurable", TRUE_ID),
            (DEFAULT_SETTER_DESCRIPTOR_ID, "enumerable", TRUE_ID),
            (DEFAULT_SETTER_DESCRIPTOR_ID, "configurable", TRUE_ID),
            (WRITABLE_DESCRIPTOR_ID, "writable", TRUE_ID),
            (UNWRITABLE_DESCRIPTOR_ID, "writable", FALSE_ID),
            (ENUMERABLE_DESCRIPTOR_ID, "enumerable", TRUE_ID),
            (UNENUMERABLE_DESCRIPTOR_ID, "enumerable", FALSE_ID),
            (UNCONFIGURABLE_DESCRIPTOR_ID, "configurable", FALSE_ID),
        ]
    );
    let creates = steps
        .iter()
        .filter(|s| {
            s.expect.is_some()
                && matches!(s.call, SetupCall::Call1(Operand::Known(OBJECT_CREATE_ID), Operand::Known(NULL_ID)))
        })
        .count();
    assert_eq!(creates, 11);
}
