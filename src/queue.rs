//! The concurrent queues of crossbeam-deque that carry tasks: the global
//! injector, each worker's local deque, and the stealing end of a deque.
//! Other threads push and steal concurrently, so nothing is promised about
//! what a queue holds from one call to the next.

use vstd::prelude::*;

use crossbeam_deque::{Injector, Steal, Stealer, Worker};

verus! {

#[verifier::external_type_specification]
#[verifier::external_body]
#[verifier::reject_recursive_types(T)]
pub struct ExInjector<T>(Injector<T>);

#[verifier::external_type_specification]
#[verifier::external_body]
#[verifier::reject_recursive_types(T)]
pub struct ExWorker<T>(Worker<T>);

#[verifier::external_type_specification]
#[verifier::external_body]
#[verifier::reject_recursive_types(T)]
pub struct ExStealer<T>(Stealer<T>);

/// The outcome of a steal: `Empty`, `Success(task)` or `Retry`.
#[verifier::external_type_specification]
#[verifier::reject_recursive_types(T)]
pub struct ExSteal<T>(Steal<T>);

/// Relies on `Injector::steal`: takes the task at the front of the global
/// queue, if the race for it is won.
pub assume_specification<T>[ Injector::<T>::steal ](injector: &Injector<T>) -> Steal<T>;

/// Relies on `Worker::pop`: the owner takes a task from its local deque.
pub assume_specification<T>[ Worker::<T>::pop ](worker: &Worker<T>) -> Option<T>;

/// Relies on `Stealer::steal`: another thread takes the task at the front
/// of a local deque, if the race for it is won.
pub assume_specification<T>[ Stealer::<T>::steal ](stealer: &Stealer<T>) -> Steal<T>;

} // verus!
