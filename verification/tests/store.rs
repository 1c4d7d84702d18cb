use post_wall::address::Address;
use post_wall::init::{change_authority, init, is_this_caller_authority, query_authority};
use post_wall::post::{create_post, create_post_check, CreatePostData, Post};
use post_wall::registration::{
    register_as_business_account, register_as_plus_user, register_as_regular_user, Gender,
    RegistrationData,
};
use post_wall::response::{CreatePostResponse, RegistrationResponse, UpdateStateResponse};
use post_wall::state::State;
use post_wall::verification_status::{
    total_number_of_users, update_business_verification_charge, update_plus_verification_charge,
};

fn addr(bytes: &[u8]) -> Address {
    Address::from_bytes(bytes.to_vec())
}

fn data(first: &str, middle: &str, last: &str, username: &str) -> RegistrationData {
    RegistrationData {
        first_name: first.to_string(),
        middle_name: middle.to_string(),
        last_name: last.to_string(),
        username: username.to_string(),
        date_of_birth: 631152000,
        gender: Gender::Unspecified,
    }
}

fn post_data(topic: &str, message: &str) -> CreatePostData {
    CreatePostData {
        topic: topic.to_string(),
        message: message.to_string(),
    }
}

#[test]
fn registration_marks_username_and_resolves_address() {
    let mut st = State::new(1000);
    let alice = addr(&[1, 2, 3]);
    let r = register_as_regular_user(&mut st, &alice, data("Ann", "", "Lee", "alice"));
    assert_eq!(
        r,
        RegistrationResponse::Success {
            username: "alice".to_string()
        }
    );
    assert!(st.users.is_username_taken(&"alice".to_string()));
    assert!(st.users.is_address_registered(&alice));
    assert_eq!(st.users.resolve_username(&alice), Some("alice".to_string()));
}

#[test]
fn same_address_twice_is_already_registered() {
    let mut st = State::new(1000);
    let alice = addr(&[1, 2, 3]);
    let r = register_as_regular_user(&mut st, &alice, data("Ann", "", "Lee", "alice"));
    assert!(matches!(r, RegistrationResponse::Success { .. }));
    // A second registration from the same address, with every other field
    // different, is still rejected.
    let r2 = register_as_plus_user(&mut st, &alice, data("Bob", "J", "Moor", "bobby"));
    assert_eq!(r2, RegistrationResponse::AlreadyRegistered);
    assert!(!st.users.is_username_taken(&"bobby".to_string()));
}

#[test]
fn same_username_from_second_address_is_taken() {
    let mut st = State::new(1000);
    let alice = addr(&[1]);
    let eve = addr(&[2]);
    let r = register_as_regular_user(&mut st, &alice, data("Ann", "", "Lee", "alice"));
    assert!(matches!(r, RegistrationResponse::Success { .. }));
    let r2 = register_as_business_account(&mut st, &eve, data("Eve", "", "Moor", "alice"));
    assert_eq!(r2, RegistrationResponse::UserNameTaken);
    assert!(!st.users.is_address_registered(&eve));
}

#[test]
fn append_for_unregistered_user_leaves_store_alone() {
    let mut st = State::new(1000);
    let alice = addr(&[1]);
    let r = register_as_regular_user(&mut st, &alice, data("Ann", "", "Lee", "alice"));
    assert!(matches!(r, RegistrationResponse::Success { .. }));
    // Through the boundary operation: an unregistered caller is refused.
    let eve = addr(&[9]);
    let r = create_post(&mut st, &eve, post_data("hi", "first"), 7);
    assert_eq!(r, CreatePostResponse::UserNotRegistered);
    // Directly against the content store: no slot for the username.
    let post = Post::new(&mut st.heap, post_data("hi", "first"), 7).unwrap();
    let r = st
        .post_state
        .append_post(&mut st.heap, &"nobody".to_string(), post);
    assert_eq!(r, Err(CreatePostResponse::UserNotRegistered));
    assert!(st.post_state.get_posts(&"nobody".to_string()).is_none());
    assert_eq!(st.post_state.get_posts(&"alice".to_string()).unwrap().len(), 0);
}

#[test]
fn three_appends_keep_call_order_and_other_users_untouched() {
    let mut st = State::new(10_000);
    let alice = addr(&[1]);
    let bob = addr(&[2]);
    register_as_regular_user(&mut st, &alice, data("Ann", "", "Lee", "alice"));
    register_as_regular_user(&mut st, &bob, data("Bob", "", "Moor", "bob"));
    create_post(&mut st, &bob, post_data("bobs", "only one"), 1);
    assert_eq!(
        create_post(&mut st, &alice, post_data("one", "first"), 2),
        CreatePostResponse::Success
    );
    assert_eq!(
        create_post(&mut st, &alice, post_data("two", "second"), 3),
        CreatePostResponse::Success
    );
    assert_eq!(
        create_post(&mut st, &alice, post_data("three", "third"), 4),
        CreatePostResponse::Success
    );
    let posts = st.post_state.get_posts(&"alice".to_string()).unwrap();
    assert_eq!(posts.len(), 3);
    assert_eq!(posts[0].topic(), "one");
    assert_eq!(posts[1].topic(), "two");
    assert_eq!(posts[2].topic(), "three");
    assert_eq!(posts[0].posted_at, 2);
    assert_eq!(posts[2].posted_at, 4);
    let bobs = st.post_state.get_posts(&"bob".to_string()).unwrap();
    assert_eq!(bobs.len(), 1);
    assert_eq!(bobs[0].topic(), "bobs");
    assert_eq!(bobs[0].message(), "only one");
}

#[test]
fn failed_append_leaves_sequence_identical() {
    // Registration of "alice" takes 3 + 0 + 3 + 5 + 5 = 16 units; the first
    // post takes 2 + 2 = 4; capacity 20 leaves no room for a second post.
    let mut st = State::new(20);
    let alice = addr(&[1]);
    let r = register_as_regular_user(&mut st, &alice, data("Ann", "", "Lee", "alice"));
    assert!(matches!(r, RegistrationResponse::Success { .. }));
    assert_eq!(st.heap.used(), 16);
    assert_eq!(
        create_post(&mut st, &alice, post_data("hi", "yo"), 5),
        CreatePostResponse::Success
    );
    assert_eq!(st.heap.used(), 20);
    let r = create_post(&mut st, &alice, post_data("aa", "bb"), 6);
    assert_eq!(r, CreatePostResponse::FailedToAllocateMemory);
    let posts = st.post_state.get_posts(&"alice".to_string()).unwrap();
    assert_eq!(posts.len(), 1);
    assert_eq!(posts[0].topic(), "hi");
    assert_eq!(posts[0].message(), "yo");
    assert_eq!(posts[0].posted_at, 5);
    assert_eq!(st.heap.used(), 20);
}

#[test]
fn failed_append_during_copy_step_leaves_sequence_identical() {
    // Capacity 24: the second post itself fits (20 + 4 = 24), but the deep
    // copy of the existing 4-unit sequence then needs 28, so the copy step is
    // what fails, and it must discard everything speculative.
    let mut st = State::new(24);
    let alice = addr(&[1]);
    register_as_regular_user(&mut st, &alice, data("Ann", "", "Lee", "alice"));
    assert_eq!(
        create_post(&mut st, &alice, post_data("hi", "yo"), 5),
        CreatePostResponse::Success
    );
    assert_eq!(st.heap.used(), 20);
    let r = create_post(&mut st, &alice, post_data("aa", "bb"), 6);
    assert_eq!(r, CreatePostResponse::FailedToAllocateMemory);
    let posts = st.post_state.get_posts(&"alice".to_string()).unwrap();
    assert_eq!(posts.len(), 1);
    assert_eq!(posts[0].topic(), "hi");
    assert_eq!(posts[0].message(), "yo");
    assert_eq!(st.heap.used(), 20);
}

#[test]
fn total_users_is_always_the_sum_of_the_tiers() {
    let mut st = State::new(100);
    assert_eq!(total_number_of_users(&st), 0);
    st.user_count.add_regular_user();
    st.user_count.add_regular_user();
    st.user_count.add_plus_verified_user();
    st.user_count.add_business_verified_user();
    st.user_count.add_business_verified_user();
    st.user_count.add_business_verified_user();
    assert_eq!(total_number_of_users(&st), 6);
    st.user_count.remove_regular_user();
    st.user_count.remove_business_verified_user();
    assert_eq!(total_number_of_users(&st), 4);
    assert_eq!(
        total_number_of_users(&st),
        st.user_count.regular_verified_user
            + st.user_count.plus_verified_user
            + st.user_count.business_verified_user
    );
}

#[test]
fn change_authority_by_non_authority_changes_nothing() {
    let mut st = State::new(100);
    let root = addr(&[7, 7]);
    init(&mut st, &root);
    assert!(query_authority(&st).equals(&root));
    assert!(is_this_caller_authority(&st, &root));
    let eve = addr(&[6, 6]);
    let r = change_authority(&mut st, &eve, eve.duplicate());
    assert_eq!(r, UpdateStateResponse::Unauthorized);
    assert!(query_authority(&st).equals(&root));
    // The authority itself may hand over.
    let new_root = addr(&[8]);
    let r = change_authority(&mut st, &root, new_root.duplicate());
    assert_eq!(r, UpdateStateResponse::Success);
    assert!(query_authority(&st).equals(&new_root));
    assert!(!is_this_caller_authority(&st, &root));
}

#[test]
fn register_then_duplicate_username_then_overlong_message() {
    let mut st = State::new(10_000);
    let alice = addr(&[1]);
    let r = register_as_regular_user(&mut st, &alice, data("Ann", "", "Lee", "alice"));
    assert_eq!(
        r,
        RegistrationResponse::Success {
            username: "alice".to_string()
        }
    );
    let other = addr(&[2]);
    let r = register_as_regular_user(&mut st, &other, data("Eve", "", "Moor", "alice"));
    assert_eq!(r, RegistrationResponse::UserNameTaken);
    let long_message = "x".repeat(701);
    let r = create_post(&mut st, &alice, post_data("hi", &long_message), 9);
    assert_eq!(r, CreatePostResponse::MessageTooLong);
    assert_eq!(st.post_state.get_posts(&"alice".to_string()).unwrap().len(), 0);
}

#[test]
fn name_bounds_are_checked_in_order() {
    let mut st = State::new(10_000);
    let a = addr(&[1]);
    let long16 = "x".repeat(16);
    let long11 = "y".repeat(11);
    let r = register_as_regular_user(&mut st, &a, data(&long16, &long11, &long16, "u"));
    assert_eq!(r, RegistrationResponse::FirstNameTooLong);
    let r = register_as_regular_user(&mut st, &a, data("Ann", &long11, &long16, "u"));
    assert_eq!(r, RegistrationResponse::MiddleNameTooLong);
    let r = register_as_regular_user(&mut st, &a, data("Ann", "", &long16, "u"));
    assert_eq!(r, RegistrationResponse::LastNameTooLong);
    assert!(!st.users.is_address_registered(&a));
    // Boundary lengths pass.
    let r = register_as_regular_user(
        &mut st,
        &a,
        data(&"x".repeat(15), &"y".repeat(10), &"z".repeat(15), "u"),
    );
    assert!(matches!(r, RegistrationResponse::Success { .. }));
}

#[test]
fn overlong_topic_is_rejected_before_any_mutation() {
    let mut st = State::new(10_000);
    let alice = addr(&[1]);
    register_as_regular_user(&mut st, &alice, data("Ann", "", "Lee", "alice"));
    let used = st.heap.used();
    let long51 = "t".repeat(51);
    let r = create_post(&mut st, &alice, post_data(&long51, "fine"), 1);
    assert_eq!(r, CreatePostResponse::TopicTooLong);
    assert_eq!(st.heap.used(), used);
    assert_eq!(st.post_state.get_posts(&"alice".to_string()).unwrap().len(), 0);
    // Boundary lengths pass.
    let r = create_post(
        &mut st,
        &alice,
        post_data(&"t".repeat(50), &"m".repeat(700)),
        1,
    );
    assert_eq!(r, CreatePostResponse::Success);
}

#[test]
fn registration_fails_whole_when_heap_is_too_small() {
    // "alice" needs 16 units; 10 are not enough, and the failure leaves no
    // trace at all.
    let mut st = State::new(10);
    let alice = addr(&[1]);
    let r = register_as_regular_user(&mut st, &alice, data("Ann", "", "Lee", "alice"));
    assert_eq!(r, RegistrationResponse::FailedToAllocateMemory);
    assert!(!st.users.is_username_taken(&"alice".to_string()));
    assert!(!st.users.is_address_registered(&alice));
    assert_eq!(st.heap.used(), 0);
}

#[test]
fn fee_updates_are_gated_by_the_authority() {
    let mut st = State::new(100);
    let root = addr(&[7]);
    init(&mut st, &root);
    let eve = addr(&[6]);
    assert_eq!(
        update_plus_verification_charge(&mut st, &eve, 25),
        UpdateStateResponse::Unauthorized
    );
    assert_eq!(st.verification_charge.plus_verification, None);
    assert_eq!(
        update_plus_verification_charge(&mut st, &root, 25),
        UpdateStateResponse::Success
    );
    assert_eq!(st.verification_charge.plus_verification, Some(25));
    assert_eq!(
        update_business_verification_charge(&mut st, &eve, 90),
        UpdateStateResponse::Unauthorized
    );
    assert_eq!(st.verification_charge.business_verification, None);
    assert_eq!(
        update_business_verification_charge(&mut st, &root, 90),
        UpdateStateResponse::Success
    );
    assert_eq!(st.verification_charge.business_verification, Some(90));
    assert_eq!(st.verification_charge.regular_verification, None);
}

#[test]
fn all_three_tiers_register_the_same_way() {
    let mut st = State::new(1000);
    assert_eq!(
        register_as_regular_user(&mut st, &addr(&[1]), data("Ann", "", "Lee", "ann")),
        RegistrationResponse::Success {
            username: "ann".to_string()
        }
    );
    assert_eq!(
        register_as_plus_user(&mut st, &addr(&[2]), data("Bob", "", "Moor", "bob")),
        RegistrationResponse::Success {
            username: "bob".to_string()
        }
    );
    assert_eq!(
        register_as_business_account(&mut st, &addr(&[3]), data("Cay", "", "Hill", "cay")),
        RegistrationResponse::Success {
            username: "cay".to_string()
        }
    );
    assert!(st.users.is_username_taken(&"ann".to_string()));
    assert!(st.users.is_username_taken(&"bob".to_string()));
    assert!(st.users.is_username_taken(&"cay".to_string()));
    // Each newly registered user starts with an empty, distinct sequence.
    assert_eq!(st.post_state.get_posts(&"ann".to_string()).unwrap().len(), 0);
    assert_eq!(st.post_state.get_posts(&"bob".to_string()).unwrap().len(), 0);
    assert_eq!(st.post_state.get_posts(&"cay".to_string()).unwrap().len(), 0);
}

#[test]
fn create_post_check_reports_first_violation() {
    assert_eq!(
        create_post_check(&post_data(&"t".repeat(51), &"m".repeat(701))),
        Err(CreatePostResponse::TopicTooLong)
    );
    assert_eq!(
        create_post_check(&post_data("ok", &"m".repeat(701))),
        Err(CreatePostResponse::MessageTooLong)
    );
    assert_eq!(create_post_check(&post_data("ok", "fine")), Ok(()));
}
