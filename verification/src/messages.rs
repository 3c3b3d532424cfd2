//! Dialogue turns as the completion provider sees them: a role, optional
//! text content, an optional participant name, and an optional function-call
//! payload.

use vstd::prelude::*;

verus! {

/// Role of one dialogue turn.
#[derive(Clone, Copy, Debug, PartialEq, Eq, Structural)]
pub enum Role {
    System,
    User,
    Assistant,
    Function,
}

impl Role {
    /// The provider's wire name for this role.
    pub open spec fn spec_wire_name(self) -> Seq<char> {
        match self {
            Role::System => "system"@,
            Role::User => "user"@,
            Role::Assistant => "assistant"@,
            Role::Function => "function"@,
        }
    }

    /// Returns the provider's wire name for this role.
    pub fn wire_name(self) -> (r: &'static str)
        ensures
            r@ == self.spec_wire_name(),
    {
        match self {
            Role::System => "system",
            Role::User => "user",
            Role::Assistant => "assistant",
            Role::Function => "function",
        }
    }
}

/// A function-call payload: the callable's name and its raw argument text.
#[derive(Debug)]
pub struct FunctionCall {
    pub name: String,
    pub arguments: String,
}

/// Mathematical image of a `FunctionCall`.
pub ghost struct FunctionCallView {
    pub name: Seq<char>,
    pub arguments: Seq<char>,
}

impl View for FunctionCall {
    type V = FunctionCallView;

    open spec fn view(&self) -> FunctionCallView {
        FunctionCallView { name: self.name@, arguments: self.arguments@ }
    }
}

impl Clone for FunctionCall {
    fn clone(&self) -> (r: Self)
        ensures
            r@ == self@,
    {
        FunctionCall { name: self.name.clone(), arguments: self.arguments.clone() }
    }
}

/// One dialogue turn.
#[derive(Debug)]
pub struct Message {
    pub role: Role,
    pub content: Option<String>,
    pub name: Option<String>,
    pub function_call: Option<FunctionCall>,
}

/// Mathematical image of a `Message`.
pub ghost struct MessageView {
    pub role: Role,
    pub content: Option<Seq<char>>,
    pub name: Option<Seq<char>>,
    pub function_call: Option<FunctionCallView>,
}

impl View for Message {
    type V = MessageView;

    open spec fn view(&self) -> MessageView {
        MessageView {
            role: self.role,
            content: match self.content {
                Some(c) => Some(c@),
                None => None,
            },
            name: match self.name {
                Some(n) => Some(n@),
                None => None,
            },
            function_call: match self.function_call {
                Some(f) => Some(f@),
                None => None,
            },
        }
    }
}

impl MessageView {
    /// Exactly one of the text content and the function-call payload carries
    /// the turn's substance.
    pub open spec fn wf(self) -> bool {
        self.content is Some <==> self.function_call is None
    }
}

impl Message {
    /// A turn whose substance is plain text.
    pub fn text(role: Role, content: String) -> (r: Message)
        ensures
            r@ == (MessageView {
                role,
                content: Some(content@),
                name: None,
                function_call: None,
            }),
            r@.wf(),
    {
        Message { role, content: Some(content), name: None, function_call: None }
    }

    /// A turn whose substance is a function-call payload.
    pub fn function(role: Role, name: Option<String>, call: FunctionCall) -> (r: Message)
        ensures
            r@ == (MessageView {
                role,
                content: None,
                name: match name {
                    Some(n) => Some(n@),
                    None => None::<Seq<char>>,
                },
                function_call: Some(call@),
            }),
            r@.wf(),
    {
        Message { role, content: None, name, function_call: Some(call) }
    }
}

impl Clone for Message {
    fn clone(&self) -> (r: Self)
        ensures
            r@ == self@,
    {
        Message {
            role: self.role,
            content: match &self.content {
                Some(c) => Some(c.clone()),
                None => None,
            },
            name: match &self.name {
                Some(n) => Some(n.clone()),
                None => None,
            },
            function_call: match &self.function_call {
                Some(f) => Some(f.clone()),
                None => None,
            },
        }
    }
}

} // verus!
