//! The checks on the monitored interface: that it exists when monitoring
//! begins, and that it is still there at each reading.

use crate::text::{decimal, push_decimal};
use vstd::prelude::*;
use vstd::string::*;

verus! {

/// Bytes in one kilobyte, the unit of the usage report.
pub const KILOBYTE: u64 = 1024;

/// The interface to monitor does not exist, or no longer exists. The message
/// says which of the two, and names the interface.
#[derive(Debug)]
pub struct InterfaceError {
    message: String,
}

/// The texts of a sequence of names, in the same order.
pub open spec fn names_of(names: Seq<String>) -> Seq<Seq<char>> {
    names.map_values(|name: String| name@)
}

/// `names` written one after another, separated by a comma and a space.
pub open spec fn joined(names: Seq<Seq<char>>) -> Seq<char>
    decreases names.len(),
{
    if names.len() == 0 {
        Seq::empty()
    } else if names.len() == 1 {
        names[0]
    } else {
        joined(names.drop_last()) + ", "@ + names.last()
    }
}

/// The message for an interface that is not among the available ones.
pub open spec fn not_found_text(interface: Seq<char>, available: Seq<Seq<char>>) -> Seq<char> {
    "Interface '"@ + interface + "' not found. Available interfaces: "@ + joined(available)
}

/// The message for an interface that has disappeared while it was monitored.
pub open spec fn lost_text(interface: Seq<char>) -> Seq<char> {
    "Lost connection to interface '"@ + interface + "'"@
}

/// The report of the bytes an interface moved, in whole kilobytes.
pub open spec fn usage_text(transmitted: u64, received: u64) -> Seq<char> {
    "Data Usage - Transmitted: "@ + decimal((transmitted / KILOBYTE) as nat) + " KB, Received: "@
        + decimal((received / KILOBYTE) as nat) + " KB"@
}

impl View for InterfaceError {
    type V = Seq<char>;

    closed spec fn view(&self) -> Seq<char> {
        self.message@
    }
}

impl InterfaceError {
    /// The error for an interface that is not among `available`.
    pub fn not_found(interface: &str, available: &Vec<String>) -> (error: InterfaceError)
        ensures
            error@ == not_found_text(interface@, names_of(available@)),
    {
        let mut message = String::from_str("Interface '");
        message.append(interface);
        message.append("' not found. Available interfaces: ");
        let ghost head = message@;
        let ghost names = names_of(available@);
        let mut i: usize = 0;
        while i < available.len()
            invariant
                i <= available.len(),
                names == names_of(available@),
                message@ == head + joined(names.subrange(0, i as int)),
            decreases available.len() - i,
        {
            proof {
                assert(names.subrange(0, i + 1).drop_last() =~= names.subrange(0, i as int));
                assert(names.subrange(0, i + 1).last() == available@[i as int]@);
            }
            if i > 0 {
                message.append(", ");
            }
            message.append(available[i].as_str());
            proof {
                if i == 0 {
                    assert(joined(names.subrange(0, 1)) =~= available@[0]@);
                }
                assert(message@ =~= head + joined(names.subrange(0, i + 1)));
            }
            i = i + 1;
        }
        proof {
            assert(names.subrange(0, available.len() as int) =~= names);
        }
        InterfaceError { message }
    }

    /// The error for an interface that has disappeared.
    pub fn lost(interface: &str) -> (error: InterfaceError)
        ensures
            error@ == lost_text(interface@),
    {
        let mut message = String::from_str("Lost connection to interface '");
        message.append(interface);
        message.append("'");
        InterfaceError { message }
    }

    /// The message of the error, as the error is shown.
    pub fn to_string(&self) -> (text: String)
        ensures
            text@ == self@,
    {
        self.message.clone()
    }
}

/// Whether `interface` is one of `available`.
pub fn is_available(available: &Vec<String>, interface: &String) -> (found: bool)
    ensures
        found == names_of(available@).contains(interface@),
{
    let ghost names = names_of(available@);
    let mut i: usize = 0;
    while i < available.len()
        invariant
            i <= available.len(),
            names == names_of(available@),
            forall|k: int| 0 <= k < i ==> names[k] != interface@,
        decreases available.len() - i,
    {
        if available[i] == *interface {
            assert(names[i as int] == interface@);
            return true;
        }
        i = i + 1;
    }
    false
}

/// Decides whether monitoring of `interface` can begin: it can when the
/// interface is one of `available`, and otherwise fails with an error that
/// lists the available ones.
pub fn check_interface(available: &Vec<String>, interface: &String) -> (outcome: Result<
    (),
    InterfaceError,
>)
    ensures
        names_of(available@).contains(interface@) ==> outcome is Ok,
        !names_of(available@).contains(interface@) ==> outcome is Err && outcome->Err_0@
            == not_found_text(interface@, names_of(available@)),
{
    if is_available(available, interface) {
        Ok(())
    } else {
        Err(InterfaceError::not_found(interface.as_str(), available))
    }
}

/// The report of the bytes moved, in whole kilobytes.
pub fn usage_report(transmitted: u64, received: u64) -> (report: String)
    ensures
        report@ == usage_text(transmitted, received),
{
    let mut report = String::from_str("Data Usage - Transmitted: ");
    push_decimal(&mut report, (transmitted / KILOBYTE) as u128);
    report.append(" KB, Received: ");
    push_decimal(&mut report, (received / KILOBYTE) as u128);
    report.append(" KB");
    report
}

/// One step of plain monitoring: given what the interface reported since
/// the last step, as bytes transmitted and received, the usage report to
/// show; or, when the interface is gone, the error that ends the monitoring.
pub fn monitor_step(interface: &str, usage: Option<(u64, u64)>) -> (outcome: Result<
    String,
    InterfaceError,
>)
    ensures
        match usage {
            Some((transmitted, received)) => outcome is Ok && outcome->Ok_0@ == usage_text(
                transmitted,
                received,
            ),
            None => outcome is Err && outcome->Err_0@ == lost_text(interface@),
        },
{
    match usage {
        Some((transmitted, received)) => Ok(usage_report(transmitted, received)),
        None => Err(InterfaceError::lost(interface)),
    }
}

} // verus!
