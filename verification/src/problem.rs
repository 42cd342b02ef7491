//! The data model of a problem document and of the validation extension,
//! with the members each value contributes to its JSON object.

use crate::text::{
    append, array, array_text, decimal_text, item_views, json_string_text, member_views, number,
    object, object_text, string, Member, MemberView,
};
use vstd::prelude::*;

verus! {

/// The request part where the problem occurred.
pub enum Source {
    /// The problem lies in the request payload.
    Body {
        /// A JSON pointer (RFC 6901) to the offending property, or `None`
        /// when the payload as a whole is the problem.
        pointer: Option<String>,
    },
    /// The problem lies in a request header.
    Header {
        /// The name of the offending header.
        name: String,
    },
}

/// One validation failure and where it was found.
pub struct ValidationError {
    pub detail: String,
    pub source: Source,
}

/// The validation extension: the failures in the order they were found.
pub struct ValidationErrors {
    pub errors: Vec<ValidationError>,
}

/// A problem document: four fixed members and an optional extension whose
/// members are merged into the same object.
#[derive(Debug)]
pub struct ProblemDetails<Extension> {
    /// A stable identifier of the kind of problem.
    pub type_: String,
    /// The HTTP status code, repeated in the body.
    pub status: u16,
    /// A short summary of the kind of problem.
    pub title: String,
    /// An explanation of this occurrence.
    pub detail: String,
    /// Further members, or `None` for a document without any.
    pub extensions: Option<Extension>,
}

/// An extension could not be turned into members.
#[derive(Debug)]
pub struct EncodeError {}

/// A value that contributes members to a JSON object.
///
/// An implementation decides by `members` what the value contributes, or
/// that it cannot be serialized at all; `to_members` computes just that.
pub trait JsonObject {
    /// The members of this value in order, or `None` if it cannot be
    /// serialized.
    spec fn members(&self) -> Option<Seq<MemberView>>;

    /// Computes the members, or fails where `members` is `None`.
    fn to_members(&self) -> (r: Result<Vec<Member>, EncodeError>)
        ensures
            match r {
                Ok(list) => self.members() == Some(member_views(list@)),
                Err(_) => self.members() is None,
            },
    ;
}

impl Source {
    /// The discriminator `source`, then the variant's own member. A body
    /// source without a pointer has the discriminator alone.
    pub open spec fn members(&self) -> Seq<MemberView> {
        match self {
            Source::Body { pointer: None } => seq![("source"@, json_string_text("body"@))],
            Source::Body { pointer: Some(p) } => seq![
                ("source"@, json_string_text("body"@)),
                ("pointer"@, json_string_text(p@)),
            ],
            Source::Header { name } => seq![
                ("source"@, json_string_text("header"@)),
                ("name"@, json_string_text(name@)),
            ],
        }
    }

    /// Computes the members of this source.
    pub fn to_members(&self) -> (list: Vec<Member>)
        ensures
            member_views(list@) == self.members(),
    {
        let mut list: Vec<Member> = Vec::new();
        match self {
            Source::Body { pointer } => {
                list.push(Member { name: "source".to_owned(), value: string("body") });
                match pointer {
                    Some(p) => {
                        list.push(Member { name: "pointer".to_owned(), value: string(p.as_str()) });
                    },
                    None => {},
                }
            },
            Source::Header { name } => {
                list.push(Member { name: "source".to_owned(), value: string("header") });
                list.push(Member { name: "name".to_owned(), value: string(name.as_str()) });
            },
        }
        assert(member_views(list@) =~= self.members());
        list
    }

    /// Renders this source as a JSON object of its own.
    pub fn to_json(&self) -> (text: Vec<u8>)
        ensures
            text@ == object_text(self.members()),
    {
        object(&self.to_members())
    }
}

impl ValidationError {
    /// `detail`, then the members of the source, all in one object.
    pub open spec fn members(&self) -> Seq<MemberView> {
        seq![("detail"@, json_string_text(self.detail@))] + self.source.members()
    }

    /// Computes the members of this error.
    pub fn to_members(&self) -> (list: Vec<Member>)
        ensures
            member_views(list@) == self.members(),
    {
        let mut list: Vec<Member> = Vec::new();
        list.push(Member { name: "detail".to_owned(), value: string(self.detail.as_str()) });
        let mut rest = self.source.to_members();
        let ghost tail = rest@;
        list.append(&mut rest);
        assert(member_views(list@) =~= self.members()) by {
            assert(list@ == seq![list@[0]] + tail);
            assert(member_views(tail) == self.source.members());
            assert forall|i: int| 0 <= i < list@.len() implies member_views(list@)[i]
                == self.members()[i] by {
                if i > 0 {
                    assert(list@[i] == tail[i - 1]);
                    assert(member_views(tail)[i - 1] == tail[i - 1]@);
                }
            }
        }
        list
    }

    /// Renders this error as a JSON object.
    pub fn to_json(&self) -> (text: Vec<u8>)
        ensures
            text@ == object_text(self.members()),
    {
        object(&self.to_members())
    }
}

/// The object texts of a list of errors, in the same order.
pub open spec fn error_texts(errors: Seq<ValidationError>) -> Seq<Seq<u8>> {
    Seq::new(errors.len(), |i: int| object_text(errors[i].members()))
}

impl ValidationErrors {
    /// The single member `errors`: an array with one object per error, in
    /// the order of the list.
    pub open spec fn fields(&self) -> Seq<MemberView> {
        seq![("errors"@, array_text(error_texts(self.errors@)))]
    }

    /// Computes the single member of the list.
    pub fn to_fields(&self) -> (list: Vec<Member>)
        ensures
            member_views(list@) == self.fields(),
    {
        let mut items: Vec<Vec<u8>> = Vec::new();
        let mut i: usize = 0;
        while i < self.errors.len()
            invariant
                i <= self.errors.len(),
                item_views(items@) == error_texts(self.errors@).take(i as int),
            decreases self.errors.len() - i,
        {
            let ghost before = item_views(items@);
            let text = self.errors[i].to_json();
            items.push(text);
            i += 1;
            assert(item_views(items@) =~= before.push(object_text(self.errors@[i - 1].members())));
            assert(item_views(items@) =~= error_texts(self.errors@).take(i as int));
        }
        assert(error_texts(self.errors@).take(i as int) == error_texts(self.errors@));
        let mut list: Vec<Member> = Vec::new();
        list.push(Member { name: "errors".to_owned(), value: array(&items) });
        assert(member_views(list@) =~= self.fields());
        list
    }

    /// Renders the list as a JSON object.
    pub fn to_json(&self) -> (text: Vec<u8>)
        ensures
            text@ == object_text(self.fields()),
    {
        object(&self.to_fields())
    }
}

impl JsonObject for ValidationErrors {
    /// A list of errors always serializes.
    open spec fn members(&self) -> Option<Seq<MemberView>> {
        Some(self.fields())
    }

    fn to_members(&self) -> (r: Result<Vec<Member>, EncodeError>)
        ensures
            r is Ok,
    {
        Ok(self.to_fields())
    }
}

/// An extension that was serialized beforehand: its members, or the fact
/// that serializing it failed. It lets any payload travel in a problem
/// document, whatever produced its members.
pub struct Serialized {
    pub outcome: Result<Vec<Member>, EncodeError>,
}

impl JsonObject for Serialized {
    open spec fn members(&self) -> Option<Seq<MemberView>> {
        match self.outcome {
            Ok(list) => Some(member_views(list@)),
            Err(_) => None,
        }
    }

    fn to_members(&self) -> (r: Result<Vec<Member>, EncodeError>) {
        match &self.outcome {
            Ok(list) => {
                let mut copy: Vec<Member> = Vec::new();
                let mut i: usize = 0;
                while i < list.len()
                    invariant
                        i <= list.len(),
                        member_views(copy@) == member_views(list@).take(i as int),
                    decreases list.len() - i,
                {
                    let ghost before = member_views(copy@);
                    let mut value: Vec<u8> = Vec::new();
                    append(&mut value, &list[i].value);
                    copy.push(Member { name: list[i].name.clone(), value });
                    i += 1;
                    assert(member_views(copy@) =~= before.push(list@[i - 1]@));
                    assert(member_views(copy@) =~= member_views(list@).take(i as int));
                }
                assert(member_views(list@).take(i as int) == member_views(list@));
                Ok(copy)
            },
            Err(_) => Err(EncodeError {}),
        }
    }
}

/// The names of the four fixed members, in wire order.
pub open spec fn fixed_names() -> Seq<Seq<char>> {
    seq!["type"@, "status"@, "title"@, "detail"@]
}

/// The four fixed members of a problem document, in wire order.
pub open spec fn fixed_members(
    type_: Seq<char>,
    status: u16,
    title: Seq<char>,
    detail: Seq<char>,
) -> Seq<MemberView> {
    seq![
        ("type"@, json_string_text(type_)),
        ("status"@, decimal_text(status as nat)),
        ("title"@, json_string_text(title)),
        ("detail"@, json_string_text(detail)),
    ]
}

impl<Extension: JsonObject> ProblemDetails<Extension> {
    /// The fixed members of this document.
    pub open spec fn fixed(&self) -> Seq<MemberView> {
        fixed_members(self.type_@, self.status, self.title@, self.detail@)
    }

    /// The invariant of a document: none of the extension's members bears
    /// the name of a fixed member. It is the caller's to keep; encoding
    /// does not test it.
    pub open spec fn well_formed(&self) -> bool {
        match self.extensions {
            Some(extension) => match extension.members() {
                Some(more) => forall|i: int|
                    0 <= i < more.len() ==> !fixed_names().contains(#[trigger] more[i].0),
                None => true,
            },
            None => true,
        }
    }

    /// The fixed members followed by those of the extension, if there is
    /// one; `None` if the extension cannot be serialized.
    pub open spec fn members(&self) -> Option<Seq<MemberView>> {
        match self.extensions {
            None => Some(self.fixed()),
            Some(extension) => match extension.members() {
                Some(more) => Some(self.fixed() + more),
                None => None,
            },
        }
    }

    /// Computes the members of the document, or fails where the extension
    /// does.
    pub fn to_members(&self) -> (r: Result<Vec<Member>, EncodeError>)
        ensures
            match r {
                Ok(list) => self.members() == Some(member_views(list@)),
                Err(_) => self.members() is None,
            },
    {
        let mut list: Vec<Member> = Vec::new();
        list.push(Member { name: "type".to_owned(), value: string(self.type_.as_str()) });
        list.push(Member { name: "status".to_owned(), value: number(self.status) });
        list.push(Member { name: "title".to_owned(), value: string(self.title.as_str()) });
        list.push(Member { name: "detail".to_owned(), value: string(self.detail.as_str()) });
        assert(member_views(list@) =~= self.fixed());
        match &self.extensions {
            None => Ok(list),
            Some(extension) => {
                let mut more = extension.to_members()?;
                let ghost head = list@;
                let ghost tail = more@;
                list.append(&mut more);
                assert(member_views(list@) =~= self.fixed() + member_views(tail)) by {
                    assert forall|i: int| 0 <= i < list@.len() implies member_views(list@)[i] == (
                    self.fixed() + member_views(tail))[i] by {
                        if i < 4 {
                            assert(list@[i] == head[i]);
                            assert(member_views(head)[i] == head[i]@);
                        } else {
                            assert(list@[i] == tail[i - 4]);
                            assert(member_views(tail)[i - 4] == tail[i - 4]@);
                        }
                    }
                }
                Ok(list)
            },
        }
    }

    /// Renders the document as one flat JSON object, or fails where the
    /// extension does.
    pub fn to_json(&self) -> (r: Result<Vec<u8>, EncodeError>)
        ensures
            match r {
                Ok(text) => self.members() is Some && text@ == object_text(self.members().unwrap()),
                Err(_) => self.members() is None,
            },
    {
        let list = self.to_members()?;
        Ok(object(&list))
    }
}

} // verus!
