//! Greeting every employee whose birthday falls on a given day.
use vstd::prelude::*;

use crate::date::{same_day_of_year, Date};
use crate::employ::{Employ, EmployView};
use crate::repository::Repository;

verus! {

/// Delivers one greeting.
pub trait SendService {
    fn send(&self, employ: &Employ) -> Result<(), String>;
}

/// The employees among `employees` whose birthday falls on the day of the year of `date`,
/// in the order given.
pub open spec fn celebrants(employees: Seq<EmployView>, date: Date) -> Seq<EmployView>
    decreases employees.len(),
{
    if employees.len() == 0 {
        Seq::empty()
    } else {
        let rest = celebrants(employees.drop_last(), date);
        if same_day_of_year(employees.last().birthday, date) {
            rest.push(employees.last())
        } else {
            rest
        }
    }
}

/// Who celebrates depends on the day of the year alone: two dates with the same month and
/// day select the same employees, whatever their years.
pub proof fn lemma_celebrants_ignore_year(employees: Seq<EmployView>, d1: Date, d2: Date)
    requires
        same_day_of_year(d1, d2),
    ensures
        celebrants(employees, d1) == celebrants(employees, d2),
    decreases employees.len(),
{
    if employees.len() > 0 {
        lemma_celebrants_ignore_year(employees.drop_last(), d1, d2);
    }
}

/// The employees whose birthday is on `date`'s day of the year.
pub fn birthday_employees(employees: &Vec<Employ>, date: &Date) -> (r: Vec<Employ>)
    ensures
        r@.map_values(|e: Employ| e@) == celebrants(employees@.map_values(|e: Employ| e@), *date),
{
    let ghost all = employees@.map_values(|e: Employ| e@);
    let mut r: Vec<Employ> = Vec::new();
    let mut i: usize = 0;
    assert(all.subrange(0, 0) =~= Seq::<EmployView>::empty());
    assert(r@.map_values(|e: Employ| e@) =~= Seq::<EmployView>::empty());
    while i < employees.len()
        invariant
            i <= employees@.len(),
            all == employees@.map_values(|e: Employ| e@),
            r@.map_values(|e: Employ| e@) == celebrants(all.subrange(0, i as int), *date),
        decreases employees@.len() - i,
    {
        let e = &employees[i];
        assert(all.subrange(0, i + 1).drop_last() =~= all.subrange(0, i as int));
        assert(all.subrange(0, i + 1).last() == e@);
        if e.birthday.same_day_of_year(date) {
            let ghost before = r@;
            r.push(e.duplicate());
            assert(r@.map_values(|e: Employ| e@) =~= before.map_values(|e: Employ| e@).push(e@));
        }
        i = i + 1;
    }
    assert(all.subrange(0, i as int) =~= all);
    r
}

/// Sends a greeting to each employee whose birthday is on `date`'s day of the year, in order,
/// stopping at the first failure, whose message is returned. With nobody to greet, nothing is
/// sent and the result is `Ok`.
pub fn greet<S: SendService>(employees: &Vec<Employ>, date: &Date, sender: &S) -> (r: Result<
    (),
    String,
>)
    ensures
        celebrants(employees@.map_values(|e: Employ| e@), *date).len() == 0 ==> r is Ok,
        r is Err ==> celebrants(employees@.map_values(|e: Employ| e@), *date).len() > 0,
{
    let recipients = birthday_employees(employees, date);
    let mut i: usize = 0;
    while i < recipients.len()
        invariant
            i <= recipients@.len(),
            recipients@.map_values(|e: Employ| e@) == celebrants(
                employees@.map_values(|e: Employ| e@),
                *date,
            ),
        decreases recipients@.len() - i,
    {
        match sender.send(&recipients[i]) {
            Ok(()) => {},
            Err(message) => {
                assert(recipients@.map_values(|e: Employ| e@).len() > 0);
                return Err(message);
            },
        }
        i = i + 1;
    }
    Ok(())
}

/// Greets the employees of a repository through a send service.
pub struct BirthdayGreetingService<R: Repository, S: SendService> {
    repository: R,
    send_service: S,
}

impl<R: Repository, S: SendService> BirthdayGreetingService<R, S> {
    pub fn new(repository: R, send_service: S) -> (r: Self)
        ensures
            r.repository() == repository,
            r.send_service() == send_service,
    {
        BirthdayGreetingService { repository, send_service }
    }

    pub closed spec fn repository(&self) -> R {
        self.repository
    }

    pub closed spec fn send_service(&self) -> S {
        self.send_service
    }

    /// Greets, as `greet` does, the repository's employees whose birthday is on `date`.
    pub fn send_greetings(&self, date: Date) -> (r: Result<(), String>)
        ensures
            celebrants(self.repository().records(), date).len() == 0 ==> r is Ok,
            r is Err ==> celebrants(self.repository().records(), date).len() > 0,
    {
        greet(self.repository.entries(), &date, &self.send_service)
    }
}

} // verus!
