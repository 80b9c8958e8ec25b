//! What a request for a new grant is about.

use vstd::prelude::*;

verus! {

/// The kinds of things that grants are for.
#[derive(Debug, Clone, Copy, PartialEq, Eq, Structural)]
pub enum EntityType {
    Teacher,
    Lesson,
    Task,
}

impl EntityType {
    /// The name of the kind on the wire.
    pub open spec fn name_text(self) -> Seq<char> {
        match self {
            EntityType::Teacher => "teacher"@,
            EntityType::Lesson => "lesson"@,
            EntityType::Task => "task"@,
        }
    }

    pub fn name(self) -> (s: &'static str)
        ensures
            s@ == self.name_text(),
    {
        match self {
            EntityType::Teacher => "teacher",
            EntityType::Lesson => "lesson",
            EntityType::Task => "task",
        }
    }
}

} // verus!
