//! An employee record.
use vstd::prelude::*;

use crate::date::Date;

verus! {

#[derive(Debug, Clone, PartialEq, Eq, Hash)]
pub struct Employ {
    pub name: String,
    pub surname: String,
    pub birthday: Date,
    pub email: String,
}

/// The view of an `Employ`.
pub struct EmployView {
    pub name: Seq<char>,
    pub surname: Seq<char>,
    pub birthday: Date,
    pub email: Seq<char>,
}

impl View for Employ {
    type V = EmployView;

    open spec fn view(&self) -> EmployView {
        EmployView {
            name: self.name@,
            surname: self.surname@,
            birthday: self.birthday,
            email: self.email@,
        }
    }
}

impl Employ {
    pub fn new(name: &str, surname: &str, birthday: Date, email: &str) -> (r: Employ)
        ensures
            r@ == (EmployView { name: name@, surname: surname@, birthday, email: email@ }),
    {
        Employ {
            name: String::from_str(name),
            surname: String::from_str(surname),
            birthday,
            email: String::from_str(email),
        }
    }

    /// A copy equal to `self`.
    pub fn duplicate(&self) -> (r: Employ)
        ensures
            r == *self,
    {
        Employ {
            name: self.name.clone(),
            surname: self.surname.clone(),
            birthday: self.birthday,
            email: self.email.clone(),
        }
    }
}

} // verus!
