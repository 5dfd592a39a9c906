use wire::{
    AuthTarget, Connected, Disconnected, FirstConnected, Authenticated, Target, Targets, UserPool,
    ANON_USER_ID, SYSTEM_USER_ID,
};

const USER: u128 = 0x0123_4567_89ab_cdef_0011_2233_4455_6677;

#[test]
fn new_deduced_anonymous_user_gives_anon() {
    assert_eq!(Target::new_deduced(ANON_USER_ID, 0), Target::Anon(0));
    assert_eq!(Target::new_deduced(ANON_USER_ID, 7), Target::Anon(7));
    assert_eq!(Target::new_deduced(ANON_USER_ID, u32::MAX), Target::Anon(u32::MAX));
}

#[test]
fn new_deduced_other_user_gives_specific() {
    assert_eq!(
        Target::new_deduced(USER, 3),
        Target::Auth(AuthTarget::Specific(USER, 3))
    );
    assert_eq!(
        Target::new_deduced(SYSTEM_USER_ID, 0),
        Target::Auth(AuthTarget::Specific(SYSTEM_USER_ID, 0))
    );
    assert_ne!(ANON_USER_ID, SYSTEM_USER_ID);
}

#[test]
fn explicit_constructors_do_not_deduce() {
    assert_eq!(Target::new_anon(4), Target::Anon(4));
    assert_eq!(Target::new_auth(USER), Target::Auth(AuthTarget::All(USER)));
    assert_eq!(
        Target::new_auth_specific(USER, 9),
        Target::Auth(AuthTarget::Specific(USER, 9))
    );
    assert_eq!(Target::new_bot(USER), Target::Bot(USER));
}

#[test]
fn weak_eq_ignores_session_of_authenticated_user() {
    let a = Target::new_deduced(USER, 1);
    let b = Target::new_deduced(USER, 2);
    assert!(a.weak_eq(&b));
    assert!(b.weak_eq(&a));
    assert!(a.weak_eq(&a));
    assert!(a.weak_eq(&Target::new_auth(USER)));
    assert!(!a.weak_eq(&Target::new_deduced(USER + 1, 1)));
}

#[test]
fn weak_eq_compares_anon_by_session_and_never_across_modes() {
    assert!(!Target::Anon(1).weak_eq(&Target::Anon(2)));
    assert!(Target::Anon(1).weak_eq(&Target::Anon(1)));
    assert!(!Target::Anon(1).weak_eq(&Target::Bot(1)));
    assert!(!Target::Bot(1).weak_eq(&Target::Anon(1)));
    assert!(!Target::Bot(USER).weak_eq(&Target::new_auth(USER)));
    assert!(Target::Bot(USER).weak_eq(&Target::Bot(USER)));
}

#[test]
fn classification_predicates() {
    let targets = [Target::Anon(1), Target::new_auth(USER), Target::Bot(USER)];
    let kinds: Vec<(bool, bool, bool)> =
        targets.iter().map(|t| (t.is_anon(), t.is_auth(), t.is_bot())).collect();
    assert_eq!(kinds, vec![(true, false, false), (false, true, false), (false, false, true)]);
}

#[test]
fn for_all_widens_authenticated_and_keeps_others() {
    assert_eq!(
        Target::new_auth_specific(USER, 5).for_all(),
        Target::Auth(AuthTarget::All(USER))
    );
    assert_eq!(Target::new_auth(USER).for_all(), Target::new_auth(USER));
    assert_eq!(Target::Anon(5).for_all(), Target::Anon(5));
    assert_eq!(Target::Bot(USER).for_all(), Target::Bot(USER));
}

#[test]
fn user_id_and_auth_id() {
    assert_eq!(Target::new_auth_specific(USER, 5).user_id(), Some(USER));
    assert_eq!(Target::Anon(5).user_id(), None);
    assert_eq!(Target::Bot(USER).user_id(), None);
    assert_eq!(AuthTarget::All(USER).id(), USER);
    assert_eq!(AuthTarget::Specific(USER, 2).id(), USER);
}

#[test]
fn deprecated_new_deduces_too() {
    assert_eq!(Target::new(ANON_USER_ID, 2), Target::Anon(2));
    assert_eq!(Target::new(USER, 2), Target::new_auth_specific(USER, 2));
}

#[test]
fn random_targets_are_authenticated_and_distinct() {
    let a = Target::new_random();
    let b = Target::new_random_with_session(8);
    match (a, b) {
        (Target::Auth(AuthTarget::Specific(ua, 0)), Target::Auth(AuthTarget::Specific(ub, 8))) => {
            assert_ne!(ua, ANON_USER_ID);
            assert_ne!(ub, ANON_USER_ID);
            assert_eq!((ua >> 76) & 0xf, 4);
            assert_ne!(ua, ub);
        },
        other => panic!("unexpected targets {:?}", other),
    }
}

#[test]
fn display_forms() {
    assert_eq!(Target::Anon(7).to_string(), "anon/7");
    assert_eq!(Target::Anon(0).to_string(), "anon/0");
    assert_eq!(
        Target::new_auth(USER).to_string(),
        "auth/01234567-89ab-cdef-0011-223344556677"
    );
    assert_eq!(
        Target::new_auth_specific(USER, 42).to_string(),
        "auth/01234567-89ab-cdef-0011-223344556677/42"
    );
    assert_eq!(Target::Bot(255).to_string(), "bot/00000000-0000-0000-0000-0000000000ff");
}

#[test]
fn conversions_into_target() {
    let t: Target = AuthTarget::All(USER).into();
    assert_eq!(t, Target::new_auth(USER));
    let anon: Target = (ANON_USER_ID, 4).into();
    assert_eq!(anon, Target::Anon(4));
    let auth: Target = (USER, 4).into();
    assert_eq!(auth, Target::new_auth_specific(USER, 4));
}

#[test]
fn conversions_into_targets() {
    let one: Targets = Target::Anon(1).into();
    assert_eq!(one, Targets::Few(vec![Target::Anon(1)]));
    let auth: Targets = AuthTarget::All(USER).into();
    assert_eq!(auth, Targets::Few(vec![Target::new_auth(USER)]));
    let list: Targets = vec![Target::Anon(2), Target::Anon(1)].into();
    assert_eq!(list, Targets::Few(vec![Target::Anon(2), Target::Anon(1)]));
    let auths: Targets = vec![AuthTarget::All(USER), AuthTarget::Specific(USER, 3)].into();
    assert_eq!(
        auths,
        Targets::Few(vec![Target::new_auth(USER), Target::new_auth_specific(USER, 3)])
    );
}

#[test]
fn empty_few_is_distinct_value() {
    let empty = Targets::Few(vec![]);
    assert_eq!(empty, Targets::Few(vec![]));
    assert_ne!(empty, Targets::All);
    assert_ne!(empty, Targets::Few(vec![Target::Anon(0)]));
    assert!(!empty.is_all());
    assert!(Targets::All.is_all());
    assert_ne!(
        Targets::Few(vec![Target::Anon(1), Target::Anon(2)]),
        Targets::Few(vec![Target::Anon(2), Target::Anon(1)])
    );
}

#[test]
fn pool_targets_are_pairwise_distinct() {
    let mut pool = UserPool::default();
    let mut made = Vec::new();
    for i in 0..30 {
        let t = match i % 3 {
            0 => pool.next_anon(),
            1 => pool.next_auth(),
            _ => pool.next_bot(),
        };
        made.push(t);
    }
    for (i, a) in made.iter().enumerate() {
        for (j, b) in made.iter().enumerate() {
            assert_eq!(a.weak_eq(b), i == j, "{:?} {:?}", a, b);
        }
    }
}

#[test]
fn pool_starts_at_one_and_builds_ids_from_the_counter() {
    let mut pool = UserPool::default();
    assert_eq!(pool.next_anon(), Target::Anon(1));
    assert_eq!(
        pool.next_auth(),
        Target::Auth(AuthTarget::Specific((2u128 << 64) | 2, 0))
    );
    assert_eq!(pool.next_bot(), Target::Bot((3u128 << 64) | 3));
}

#[test]
fn connection_events_become_targets() {
    let anon: Target = Connected::<Authenticated>::new(ANON_USER_ID, 3).into();
    assert_eq!(anon, Target::Anon(3));
    let auth: Target = Disconnected::<Authenticated>::new(USER, 3).into();
    assert_eq!(auth, Target::new_auth_specific(USER, 3));
    let first: Target = FirstConnected::<Authenticated>::new(USER, 1).into();
    assert_eq!(first, Target::new_auth_specific(USER, 1));
    let ids: (u128, u32) = Connected::<Authenticated>::new(USER, 6).into();
    assert_eq!(ids, (USER, 6));
    let event = Connected::<Authenticated>::new(USER, 6);
    let copy = event;
    assert_eq!(event, copy.clone());
    assert_ne!(event, Connected::new(USER, 7));
}
