//! Facts about the wire format that hold for every value, proved from the
//! definitions in [`crate::problem`] and [`crate::text`].

use crate::problem::{
    error_texts, fixed_names, JsonObject, ProblemDetails, Source, ValidationError, ValidationErrors,
};
use crate::text::{
    array_text, joined, names, object_text, MemberView, CLOSE_BRACE, CLOSE_BRACKET, COMMA,
    OPEN_BRACE, OPEN_BRACKET,
};
use vstd::prelude::*;

verus! {

/// A document that serializes has the four fixed names first and in wire
/// order, followed by exactly the names of its extension's members, in the
/// extension's order.
pub proof fn lemma_document_names<Extension: JsonObject>(problem: ProblemDetails<Extension>)
    requires
        problem.members() is Some,
    ensures
        names(problem.members().unwrap()) == fixed_names() + match problem.extensions {
            Some(extension) => names(extension.members().unwrap()),
            None => Seq::empty(),
        },
{
    let all = problem.members().unwrap();
    let rest = match problem.extensions {
        Some(extension) => names(extension.members().unwrap()),
        None => Seq::empty(),
    };
    assert(names(all) =~= fixed_names() + rest);
}

/// A document without an extension has the four fixed members and no
/// others, and it always serializes.
pub proof fn lemma_bare_document<Extension: JsonObject>(problem: ProblemDetails<Extension>)
    requires
        problem.extensions is None,
    ensures
        problem.members() == Some(problem.fixed()),
        problem.fixed().len() == 4,
        names(problem.fixed()) == fixed_names(),
{
    assert(names(problem.fixed()) =~= fixed_names());
}

/// A document serializes exactly when it has no extension or its extension
/// serializes.
pub proof fn lemma_document_serializes<Extension: JsonObject>(problem: ProblemDetails<Extension>)
    ensures
        problem.members() is Some <==> (problem.extensions matches Some(extension)
            ==> extension.members() is Some),
{
}

/// The four fixed names differ from one another.
pub proof fn lemma_fixed_names_distinct()
    ensures
        fixed_names().no_duplicates(),
{
    reveal_strlit("type");
    reveal_strlit("status");
    reveal_strlit("title");
    reveal_strlit("detail");
    assert("type"@.len() == 4);
    assert("title"@.len() == 5);
    assert("status"@[0] == 's');
    assert("detail"@[0] == 'd');
    assert("status"@.len() == 6);
    assert("detail"@.len() == 6);
}

/// In a well-formed document whose extension names no member twice, no
/// name occurs twice in the whole object.
pub proof fn lemma_document_names_distinct<Extension: JsonObject>(
    problem: ProblemDetails<Extension>,
)
    requires
        problem.well_formed(),
        problem.members() is Some,
        problem.extensions matches Some(extension) ==> names(
            extension.members().unwrap(),
        ).no_duplicates(),
    ensures
        names(problem.members().unwrap()).no_duplicates(),
{
    lemma_fixed_names_distinct();
    lemma_document_names(problem);
    let all = names(problem.members().unwrap());
    match problem.extensions {
        None => {
            assert(all =~= fixed_names());
        },
        Some(extension) => {
            let more = extension.members().unwrap();
            assert forall|i: int, j: int| 0 <= i < all.len() && 0 <= j < all.len() && i != j implies all[i]
                != all[j] by {
                if i < 4 && j < 4 {
                    assert(all[i] == fixed_names()[i]);
                    assert(all[j] == fixed_names()[j]);
                } else if i >= 4 && j >= 4 {
                    assert(all[i] == names(more)[i - 4]);
                    assert(all[j] == names(more)[j - 4]);
                } else if i < 4 {
                    assert(all[i] == fixed_names()[i]);
                    assert(all[j] == more[j - 4].0);
                } else {
                    assert(all[j] == fixed_names()[j]);
                    assert(all[i] == more[i - 4].0);
                }
            }
        },
    }
}

/// A document that carries validation errors is always well formed: the
/// extension's one member is `errors`.
pub proof fn lemma_validation_problem_well_formed(problem: ProblemDetails<ValidationErrors>)
    ensures
        problem.well_formed(),
        problem.members() is Some,
        names(problem.members().unwrap()).no_duplicates(),
{
    reveal_strlit("errors");
    reveal_strlit("type");
    reveal_strlit("status");
    reveal_strlit("title");
    reveal_strlit("detail");
    assert("errors"@[0] == 'e');
    assert("type"@[0] == 't');
    assert("status"@[0] == 's');
    assert("title"@[0] == 't');
    assert("detail"@[0] == 'd');
    match problem.extensions {
        Some(extension) => {
            let more = extension.members().unwrap();
            assert(more.len() == 1);
            assert(more[0].0 == "errors"@);
            assert(names(more).len() == 1);
        },
        None => {},
    }
    lemma_document_names_distinct(problem);
}

/// A body source has a `pointer` member exactly when it has a pointer, and
/// the member then carries that pointer; a header source has none.
pub proof fn lemma_pointer_member(source: Source)
    ensures
        names(source.members()).contains("pointer"@) <==> (source matches Source::Body {
            pointer: Some(_),
        }),
        source matches Source::Body { pointer: Some(p) } ==> source.members()[1] == (
            "pointer"@,
            crate::text::json_string_text(p@),
        ),
{
    reveal_strlit("pointer");
    reveal_strlit("source");
    reveal_strlit("name");
    let all = names(source.members());
    assert("pointer"@.len() == 7);
    assert("source"@.len() == 6);
    assert("name"@.len() == 4);
    match source {
        Source::Body { pointer: Some(p) } => {
            assert(all[1] == "pointer"@);
        },
        Source::Body { pointer: None } => {
            assert(all.len() == 1);
            assert(all[0] == "source"@);
        },
        Source::Header { name } => {
            assert(all.len() == 2);
            assert(all[0] == "source"@);
            assert(all[1] == "name"@);
        },
    }
}

/// The members of a validation error are its detail followed by those of
/// its source: two for a body without a pointer, three otherwise.
pub proof fn lemma_error_members(error: ValidationError)
    ensures
        error.members()[0] == ("detail"@, crate::text::json_string_text(error.detail@)),
        error.members().subrange(1, error.members().len() as int) == error.source.members(),
{
    assert(error.members().subrange(1, error.members().len() as int) =~= error.source.members());
}

/// An empty list of errors serializes as the empty array.
pub proof fn lemma_no_errors(list: ValidationErrors)
    requires
        list.errors@.len() == 0,
    ensures
        list.fields()[0].1 == seq![OPEN_BRACKET, CLOSE_BRACKET],
{
    assert(error_texts(list.errors@) =~= Seq::<Seq<u8>>::empty());
    assert(joined(Seq::<Seq<u8>>::empty()) =~= Seq::<u8>::empty());
    assert(array_text(Seq::<Seq<u8>>::empty()) =~= seq![OPEN_BRACKET, CLOSE_BRACKET]);
}

/// Errors are written in the order of the list: the array has one item per
/// error, and the item at each position is the object of the error at that
/// position.
pub proof fn lemma_errors_in_order(list: ValidationErrors)
    ensures
        list.fields().len() == 1,
        list.fields()[0] == ("errors"@, array_text(error_texts(list.errors@))),
        error_texts(list.errors@).len() == list.errors@.len(),
        forall|i: int|
            0 <= i < list.errors@.len() ==> #[trigger] error_texts(list.errors@)[i] == object_text(
                list.errors@[i].members(),
            ),
{
}

/// One more error at the end of a list leaves the text of the earlier ones
/// as it was and adds the new object after them, behind a comma if the list
/// was not empty.
pub proof fn lemma_errors_append(errors: Seq<ValidationError>, last: ValidationError)
    ensures
        error_texts(errors.push(last)) == error_texts(errors).push(object_text(last.members())),
        joined(error_texts(errors.push(last))) == if errors.len() == 0 {
            object_text(last.members())
        } else {
            joined(error_texts(errors)) + seq![COMMA] + object_text(last.members())
        },
{
    let longer = error_texts(errors.push(last));
    assert(longer =~= error_texts(errors).push(object_text(last.members())));
    assert(longer.drop_last() =~= error_texts(errors));
    assert(longer.last() == object_text(last.members()));
}

/// The text of an object opens with a brace and closes with one, whatever
/// its members; that of an array does so with brackets.
pub proof fn lemma_framed(members: Seq<MemberView>, items: Seq<Seq<u8>>)
    ensures
        object_text(members).len() >= 2,
        object_text(members).first() == OPEN_BRACE,
        object_text(members).last() == CLOSE_BRACE,
        array_text(items).len() >= 2,
        array_text(items).first() == OPEN_BRACKET,
        array_text(items).last() == CLOSE_BRACKET,
{
}

} // verus!
