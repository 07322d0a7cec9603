use parsimony::tm::movement::Movement;
use parsimony::tm::tape::{ConcreteTape, Tape, TapeBuilder};
use parsimony::tm::transition::{TransitionKey, TransitionValue, Transitions};
use parsimony::tm::turing::Machine;

fn successor_machine() -> Machine<i32, &'static str> {
    Machine::new(
        0,
        TapeBuilder::with_blank("_")
            .with_current("I")
            .with_right_tape(vec!["I", "I"])
            .build(),
        Transitions::new()
            .insert(
                TransitionKey::new(0, "I"),
                TransitionValue::new(0, "I", Movement::Right))
            .insert(
                TransitionKey::new(0, "_"),
                TransitionValue::new(1, "I", Movement::Left))
            .insert(
                TransitionKey::new(1, "I"),
                TransitionValue::new(1, "I", Movement::Left))
            .insert(
                TransitionKey::new(1, "_"),
                TransitionValue::new(2, "_", Movement::Right)),
    )
}

fn busy_beaver_program() -> Transitions<i32, char> {
    Transitions::new()
        .insert(
            TransitionKey::new(0, '_'),
            TransitionValue::new(1, 'I', Movement::Left))
        .insert(
            TransitionKey::new(0, 'I'),
            TransitionValue::new(2, 'I', Movement::Right))
        .insert(
            TransitionKey::new(1, '_'),
            TransitionValue::new(2, 'I', Movement::Left))
        .insert(
            TransitionKey::new(1, 'I'),
            TransitionValue::new(1, 'I', Movement::Left))
        .insert(
            TransitionKey::new(2, '_'),
            TransitionValue::new(3, 'I', Movement::Left))
        .insert(
            TransitionKey::new(2, 'I'),
            TransitionValue::new(4, '_', Movement::Right))
        .insert(
            TransitionKey::new(3, '_'),
            TransitionValue::new(0, 'I', Movement::Right))
        .insert(
            TransitionKey::new(3, 'I'),
            TransitionValue::new(3, 'I', Movement::Right))
        .insert(
            TransitionKey::new(4, '_'),
            TransitionValue::new(-1, 'I', Movement::Left))
        .insert(
            TransitionKey::new(4, 'I'),
            TransitionValue::new(0, '_', Movement::Right))
}

fn count_of<S: Copy + PartialEq>(tape: &ConcreteTape<S>, symbol: S) -> usize {
    let mut count = 0;
    if tape.read() == symbol {
        count += 1;
    }
    for cell in tape.left_cells() {
        if cell == symbol {
            count += 1;
        }
    }
    for cell in tape.right_cells() {
        if cell == symbol {
            count += 1;
        }
    }
    count
}

#[test]
fn should_step_through_a_program() {
    let m = Machine::new(
        0,
        TapeBuilder::with_blank("_")
            .with_current("I")
            .with_right_tape(vec!["I", "I"])
            .build(),
        Transitions::new()
            .insert(
                TransitionKey::new(0, "I"),
                TransitionValue::new(0, "I", Movement::Right))
            .insert(
                TransitionKey::new(0, "_"),
                TransitionValue::new(1, "I", Movement::Left))
            .insert(
                TransitionKey::new(1, "I"),
                TransitionValue::new(1, "I", Movement::Left))
            .insert(
                TransitionKey::new(1, "_"),
                TransitionValue::new(2, "_", Movement::Right))
    );

    match m.step() {
        Some(_) => assert!(true),
        None => assert!(false),
    }
}

#[test]
fn new_machine_holds_its_state_and_tape() {
    let m = successor_machine();

    assert_eq!(m.state(), 0);
    assert_eq!(m.tape().read(), "I");
    assert_eq!(m.tape().blank(), "_");
    assert_eq!(m.tape().left_cells(), Vec::<&str>::new());
    assert_eq!(m.tape().right_cells(), vec!["I", "I"]);
}

#[test]
fn successor_program_visits_its_states_and_halts() {
    let mut machine = successor_machine();
    let mut states = vec![machine.state()];
    let mut scanned = vec![machine.tape().read()];
    let mut steps = 0;
    while let Some(next) = machine.step() {
        machine = next;
        states.push(machine.state());
        scanned.push(machine.tape().read());
        steps += 1;
        assert!(steps <= 100);
    }

    assert_eq!(steps, 8);
    assert_eq!(states, vec![0, 0, 0, 0, 1, 1, 1, 1, 2]);
    assert_eq!(scanned, vec!["I", "I", "I", "_", "I", "I", "I", "_", "I"]);
    assert_eq!(machine.state(), 2);
    assert_eq!(machine.tape().read(), "I");
    assert_eq!(machine.tape().left_cells(), vec!["_"]);
    assert_eq!(machine.tape().right_cells(), vec!["I", "I", "I"]);
    assert_eq!(count_of(machine.tape(), "I"), 4);
    assert!(machine.step().is_none());
}

#[test]
fn step_writes_before_it_moves() {
    let left = Machine::new(
        0,
        ConcreteTape::empty('_'),
        Transitions::new().insert(
            TransitionKey::new(0, '_'),
            TransitionValue::new(5, 'x', Movement::Left),
        ),
    )
    .step();
    let left = match left {
        Some(machine) => machine,
        None => panic!("a transition matches"),
    };
    assert_eq!(left.state(), 5);
    assert_eq!(left.tape().read(), '_');
    assert_eq!(left.tape().right_cells(), vec!['x']);
    assert_eq!(left.tape().left_cells(), Vec::<char>::new());
    assert_eq!(left.tape().right().read(), 'x');

    let right = Machine::new(
        0,
        ConcreteTape::empty('_'),
        Transitions::new().insert(
            TransitionKey::new(0, '_'),
            TransitionValue::new(6, 'y', Movement::Right),
        ),
    )
    .step();
    let right = match right {
        Some(machine) => machine,
        None => panic!("a transition matches"),
    };
    assert_eq!(right.state(), 6);
    assert_eq!(right.tape().read(), '_');
    assert_eq!(right.tape().left_cells(), vec!['y']);
    assert_eq!(right.tape().right_cells(), Vec::<char>::new());
    assert_eq!(right.tape().left().read(), 'y');
}

#[test]
fn step_leaves_the_machine_it_was_called_on() {
    let machine = successor_machine();
    let first = machine.step();
    let second = machine.step();

    assert_eq!(machine.state(), 0);
    assert_eq!(machine.tape().read(), "I");
    assert_eq!(machine.tape().left_cells(), Vec::<&str>::new());
    assert_eq!(machine.tape().right_cells(), vec!["I", "I"]);
    match (first, second) {
        (Some(a), Some(b)) => {
            assert_eq!(a.state(), b.state());
            assert_eq!(a.tape().read(), b.tape().read());
            assert_eq!(a.tape().left_cells(), vec!["I"]);
            assert_eq!(b.tape().left_cells(), vec!["I"]);
            assert_eq!(a.tape().right_cells(), vec!["I"]);
            assert_eq!(b.tape().right_cells(), vec!["I"]);
        }
        _ => panic!("a transition matches"),
    }
}

#[test]
fn machine_without_a_matching_transition_halts_at_once() {
    let machine: Machine<i32, &str> = Machine::new(
        0,
        ConcreteTape::empty("_"),
        Transitions::new().insert(
            TransitionKey::new(0, "I"),
            TransitionValue::new(0, "I", Movement::Right),
        ),
    );

    assert!(machine.step().is_none());

    let empty: Machine<i32, &str> =
        Machine::new(0, ConcreteTape::empty("_"), Transitions::new());
    assert!(empty.step().is_none());
}

#[test]
fn halted_machine_stays_halted() {
    let mut machine = successor_machine();
    while let Some(next) = machine.step() {
        machine = next;
    }

    for _ in 0..10 {
        assert!(machine.step().is_none());
        assert_eq!(machine.state(), 2);
        assert_eq!(machine.tape().read(), "I");
    }
}

#[test]
fn transition_to_its_own_state_is_a_transition_like_any_other() {
    let mut machine: Machine<u8, char> = Machine::new(
        7,
        TapeBuilder::with_blank('_')
            .with_current('a')
            .with_right_tape(vec!['a', 'a', 'a'])
            .build(),
        Transitions::new().insert(
            TransitionKey::new(7, 'a'),
            TransitionValue::new(7, 'b', Movement::Right),
        ),
    );
    let mut steps = 0;
    while let Some(next) = machine.step() {
        machine = next;
        steps += 1;
        assert_eq!(machine.state(), 7);
        assert!(steps <= 10);
    }

    assert_eq!(steps, 4);
    assert_eq!(machine.tape().read(), '_');
    assert_eq!(machine.tape().left_cells(), vec!['b', 'b', 'b', 'b']);
    assert_eq!(machine.tape().right_cells(), Vec::<char>::new());
}

#[test]
fn transition_to_a_state_without_entries_halts_at_the_next_step() {
    let machine: Machine<i32, char> = Machine::new(
        0,
        ConcreteTape::empty('_'),
        Transitions::new().insert(
            TransitionKey::new(0, '_'),
            TransitionValue::new(-1, 'I', Movement::Right),
        ),
    );

    let next = match machine.step() {
        Some(machine) => machine,
        None => panic!("a transition matches"),
    };
    assert_eq!(next.state(), -1);
    assert!(next.step().is_none());
}

#[test]
fn busy_beaver_first_steps() {
    let mut machine = Machine::new(0, ConcreteTape::empty('_'), busy_beaver_program());
    let mut states = vec![machine.state()];
    for _ in 0..12 {
        machine = match machine.step() {
            Some(next) => next,
            None => panic!("the machine has not halted yet"),
        };
        states.push(machine.state());
    }

    assert_eq!(states, vec![0, 1, 2, 3, 0, 2, 4, 0, 1, 2, 3, 3, 3]);
    assert_eq!(count_of(machine.tape(), 'I'), 5);
}

#[test]
fn busy_beaver_after_a_thousand_steps() {
    let mut machine = Machine::new(0, ConcreteTape::empty('_'), busy_beaver_program());
    for _ in 0..1000 {
        machine = match machine.step() {
            Some(next) => next,
            None => panic!("the machine has not halted yet"),
        };
    }

    assert_eq!(machine.state(), 3);
    assert_eq!(machine.tape().read(), 'I');
    assert_eq!(count_of(machine.tape(), 'I'), 55);
    assert_eq!(machine.tape().left_cells().len(), 26);
    assert_eq!(machine.tape().right_cells().len(), 32);
}

#[test]
fn busy_beaver_halts_with_4098_marks() {
    let mut machine = Machine::new(0, ConcreteTape::empty('_'), busy_beaver_program());
    let mut steps: u64 = 0;
    while let Some(next) = machine.step() {
        machine = next;
        steps += 1;
        assert!(steps <= 50_000_000);
    }

    assert_eq!(steps, 47_176_870);
    assert_eq!(machine.state(), -1);
    assert_eq!(machine.tape().read(), '_');
    assert_eq!(count_of(machine.tape(), 'I'), 4098);
    assert_eq!(machine.tape().left_cells().len(), 12287);
    assert_eq!(machine.tape().right_cells().len(), 1);
    assert!(machine.step().is_none());
}

fn shared_between_threads<T: Send + Sync>() -> bool {
    true
}

#[test]
fn values_can_be_shared_between_threads() {
    assert!(shared_between_threads::<ConcreteTape<char>>());
    assert!(shared_between_threads::<TapeBuilder<char>>());
    assert!(shared_between_threads::<Transitions<i32, char>>());
    assert!(shared_between_threads::<Machine<i32, char>>());
    assert!(shared_between_threads::<Machine<u8, &'static str>>());
}
