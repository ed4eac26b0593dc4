//! Assembles the text of a prompt from a role and a task.
use vstd::prelude::*;
use vstd::string::StringExecFns;

verus! {

/// A prompt under construction. Its value is the text put together so far.
#[derive(Debug)]
pub struct LunnamaPromptBuilder {
    content: String,
}

impl View for LunnamaPromptBuilder {
    type V = Seq<char>;

    closed spec fn view(&self) -> Seq<char> {
        self.content@
    }
}

/// The paragraph that states a task.
pub open spec fn task_paragraph(description: Seq<char>) -> Seq<char> {
    description + "\n\n"@
}

/// The paragraph that states a role.
pub open spec fn role_paragraph(role: Seq<char>) -> Seq<char> {
    "You are "@ + role + "\n\n"@
}

impl Default for LunnamaPromptBuilder {
    fn default() -> (builder: Self)
        ensures
            builder@ == Seq::<char>::empty(),
    {
        LunnamaPromptBuilder { content: String::new() }
    }
}

impl LunnamaPromptBuilder {
    /// Appends the task, followed by an empty line.
    pub fn with_task(self, description: &str) -> (builder: Self)
        ensures
            builder@ == self@ + task_paragraph(description@),
    {
        let mut content = self.content;
        content.append(description);
        content.append("\n\n");
        assert(content@ =~= self@ + task_paragraph(description@));
        LunnamaPromptBuilder { content }
    }

    /// Appends a sentence that names the role, followed by an empty line.
    pub fn with_role(self, role: &str) -> (builder: Self)
        ensures
            builder@ == self@ + role_paragraph(role@),
    {
        let mut content = self.content;
        content.append("You are ");
        content.append(role);
        content.append("\n\n");
        assert(content@ =~= self@ + role_paragraph(role@));
        LunnamaPromptBuilder { content }
    }

    /// The text put together.
    pub fn build(self) -> (prompt: String)
        ensures
            prompt@ == self@,
    {
        self.content
    }

    /// A builder with no text yet.
    pub fn new() -> (builder: Self)
        ensures
            builder@ == Seq::<char>::empty(),
    {
        LunnamaPromptBuilder { content: String::new() }
    }
}

/// A prompt built from a role and then a task reads: the role's sentence, an
/// empty line, the task, an empty line.
pub proof fn lemma_role_then_task(role: Seq<char>, task: Seq<char>)
    ensures
        Seq::<char>::empty() + role_paragraph(role) + task_paragraph(task) == "You are "@ + role
            + "\n\n"@ + task + "\n\n"@,
{
    assert(Seq::<char>::empty() + role_paragraph(role) + task_paragraph(task) =~= "You are "@ + role
        + "\n\n"@ + task + "\n\n"@);
}

} // verus!
