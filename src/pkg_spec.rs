use vstd::prelude::*;

verus! {

/// The identity of a function in a package.
#[derive(Clone, Copy, Debug, PartialEq, Eq)]
pub struct FuncUniqueId {
    pub hash: u128,
}

/// A validation attached to a prop.
#[derive(Clone, Debug, PartialEq, Eq)]
pub enum ValidationSpec {
    StringIsNotEmpty,
    StringEquals { expected: String },
    IntegerIsBetweenTwoIntegers { lower_bound: i64, upper_bound: i64 },
}

/// An input of a prop's attribute function.
#[derive(Clone, Debug, PartialEq, Eq)]
pub struct AttrFuncInputSpec {
    pub name: String,
}

/// Why a spec could not be built.
#[derive(Clone, Debug, PartialEq, Eq)]
pub enum SpecError {
    /// A required field was never set; the text names it.
    UninitializedField(String),
}

/// A prop of a package schema.
#[derive(Debug)]
pub enum PropSpec {
    String {
        name: String,
        validations: Vec<ValidationSpec>,
        func_unique_id: Option<FuncUniqueId>,
        inputs: Vec<AttrFuncInputSpec>,
    },
    Number {
        name: String,
        validations: Vec<ValidationSpec>,
        func_unique_id: Option<FuncUniqueId>,
        inputs: Vec<AttrFuncInputSpec>,
    },
    Boolean {
        name: String,
        validations: Vec<ValidationSpec>,
        func_unique_id: Option<FuncUniqueId>,
        inputs: Vec<AttrFuncInputSpec>,
    },
    Mapping {
        name: String,
        type_prop: Box<PropSpec>,
        validations: Vec<ValidationSpec>,
        func_unique_id: Option<FuncUniqueId>,
        inputs: Vec<AttrFuncInputSpec>,
    },
    Array {
        name: String,
        type_prop: Box<PropSpec>,
        validations: Vec<ValidationSpec>,
        func_unique_id: Option<FuncUniqueId>,
        inputs: Vec<AttrFuncInputSpec>,
    },
    Object {
        name: String,
        entries: Vec<PropSpec>,
        validations: Vec<ValidationSpec>,
        func_unique_id: Option<FuncUniqueId>,
        inputs: Vec<AttrFuncInputSpec>,
    },
}

/// The kinds of prop.
#[derive(Clone, Copy, Debug, PartialEq, Eq, Hash)]
pub enum PropSpecKind {
    String,
    Number,
    Boolean,
    Mapping,
    Array,
    Object,
}

/// Collects the fields of a prop before it is built.
#[derive(Debug)]
pub struct PropSpecBuilder {
    pub kind: Option<PropSpecKind>,
    pub name: Option<String>,
    pub type_prop: Option<PropSpec>,
    pub entries: Vec<PropSpec>,
    pub validations: Vec<ValidationSpec>,
    pub func_unique_id: Option<FuncUniqueId>,
    pub inputs: Vec<AttrFuncInputSpec>,
}

/// `p` is the prop that builder `b`, with a name, builds as a `kind`.
pub open spec fn built_as(b: PropSpecBuilder, kind: PropSpecKind, p: PropSpec) -> bool {
    match p {
        PropSpec::String { name, validations, func_unique_id, inputs } => kind == PropSpecKind::String
            && Some(name) == b.name && validations == b.validations
            && func_unique_id == b.func_unique_id && inputs == b.inputs,
        PropSpec::Number { name, validations, func_unique_id, inputs } => kind == PropSpecKind::Number
            && Some(name) == b.name && validations == b.validations
            && func_unique_id == b.func_unique_id && inputs == b.inputs,
        PropSpec::Boolean { name, validations, func_unique_id, inputs } => kind == PropSpecKind::Boolean
            && Some(name) == b.name && validations == b.validations
            && func_unique_id == b.func_unique_id && inputs == b.inputs,
        PropSpec::Mapping { name, type_prop, validations, func_unique_id, inputs } => kind == PropSpecKind::Mapping
            && Some(name) == b.name && b.type_prop == Some(*type_prop)
            && validations == b.validations && func_unique_id == b.func_unique_id
            && inputs == b.inputs,
        PropSpec::Array { name, type_prop, validations, func_unique_id, inputs } => kind == PropSpecKind::Array
            && Some(name) == b.name && b.type_prop == Some(*type_prop)
            && validations == b.validations && func_unique_id == b.func_unique_id
            && inputs == b.inputs,
        PropSpec::Object { name, entries, validations, func_unique_id, inputs } => kind == PropSpecKind::Object
            && Some(name) == b.name && entries == b.entries
            && validations == b.validations && func_unique_id == b.func_unique_id
            && inputs == b.inputs,
    }
}

impl PropSpec {
    /// A builder with nothing set.
    pub fn builder() -> (r: PropSpecBuilder)
        ensures
            r.kind is None,
            r.name is None,
            r.type_prop is None,
            r.entries@.len() == 0,
            r.validations@.len() == 0,
            r.func_unique_id is None,
            r.inputs@.len() == 0,
    {
        PropSpecBuilder::default()
    }
}

impl Default for PropSpecBuilder {
    fn default() -> (r: Self)
        ensures
            r.kind is None,
            r.name is None,
            r.type_prop is None,
            r.entries@.len() == 0,
            r.validations@.len() == 0,
            r.func_unique_id is None,
            r.inputs@.len() == 0,
    {
        PropSpecBuilder {
            kind: None,
            name: None,
            type_prop: None,
            entries: Vec::new(),
            validations: Vec::new(),
            func_unique_id: None,
            inputs: Vec::new(),
        }
    }
}

impl PropSpecBuilder {
    pub fn kind(self, value: PropSpecKind) -> (r: Self)
        ensures
            r == (PropSpecBuilder { kind: Some(value), ..self }),
    {
        PropSpecBuilder { kind: Some(value), ..self }
    }

    pub fn get_kind(&self) -> (r: Option<PropSpecKind>)
        ensures
            r == self.kind,
    {
        self.kind
    }

    pub fn name(self, value: String) -> (r: Self)
        ensures
            r == (PropSpecBuilder { name: Some(value), ..self }),
    {
        PropSpecBuilder { name: Some(value), ..self }
    }

    pub fn type_prop(self, value: PropSpec) -> (r: Self)
        ensures
            r == (PropSpecBuilder { type_prop: Some(value), ..self }),
    {
        PropSpecBuilder { type_prop: Some(value), ..self }
    }

    /// Appends one entry of an object prop.
    pub fn entry(self, value: PropSpec) -> (r: Self)
        ensures
            r.entries@ == self.entries@.push(value),
            r == (PropSpecBuilder { entries: r.entries, ..self }),
    {
        let mut b = self;
        b.entries.push(value);
        b
    }

    /// Appends one validation.
    pub fn validation(self, value: ValidationSpec) -> (r: Self)
        ensures
            r.validations@ == self.validations@.push(value),
            r == (PropSpecBuilder { validations: r.validations, ..self }),
    {
        let mut b = self;
        b.validations.push(value);
        b
    }

    /// Replaces all entries of an object prop.
    pub fn entries(self, value: Vec<PropSpec>) -> (r: Self)
        ensures
            r == (PropSpecBuilder { entries: value, ..self }),
    {
        PropSpecBuilder { entries: value, ..self }
    }

    pub fn func_unique_id(self, value: FuncUniqueId) -> (r: Self)
        ensures
            r == (PropSpecBuilder { func_unique_id: Some(value), ..self }),
    {
        PropSpecBuilder { func_unique_id: Some(value), ..self }
    }

    /// Appends one input of the attribute function.
    pub fn input(self, value: AttrFuncInputSpec) -> (r: Self)
        ensures
            r.inputs@ == self.inputs@.push(value),
            r == (PropSpecBuilder { inputs: r.inputs, ..self }),
    {
        let mut b = self;
        b.inputs.push(value);
        b
    }

    /// Builds the prop. A missing name, then a missing kind, then a missing
    /// type prop of a map or array, is an error naming that field.
    pub fn build(self) -> (r: Result<PropSpec, SpecError>)
        ensures
            self.name is None ==> (r matches Err(SpecError::UninitializedField(f)) && f@ == "name"@),
            self.name is Some && self.kind is None ==> (r matches Err(SpecError::UninitializedField(f))
                && f@ == "kind"@),
            self.name is Some && (self.kind == Some(PropSpecKind::Mapping) || self.kind == Some(
                PropSpecKind::Array,
            )) && self.type_prop is None ==> (r matches Err(SpecError::UninitializedField(f))
                && f@ == "type_prop"@),
            r is Ok <==> (self.name is Some && self.kind is Some && ((self.kind != Some(
                PropSpecKind::Mapping) && self.kind != Some(PropSpecKind::Array)) || self.type_prop is Some)),
            r is Ok ==> built_as(self, self.kind->Some_0, r->Ok_0),
    {
        let PropSpecBuilder { kind, name, type_prop, entries, validations, func_unique_id, inputs } = self;
        let name = match name {
            Some(name) => name,
            None => {
                return Err(SpecError::UninitializedField("name".to_string()));
            },
        };
        let kind = match kind {
            Some(kind) => kind,
            None => {
                return Err(SpecError::UninitializedField("kind".to_string()));
            },
        };
        match kind {
            PropSpecKind::String => Ok(PropSpec::String { name, validations, func_unique_id, inputs }),
            PropSpecKind::Number => Ok(PropSpec::Number { name, validations, func_unique_id, inputs }),
            PropSpecKind::Boolean => Ok(PropSpec::Boolean { name, validations, func_unique_id, inputs }),
            PropSpecKind::Mapping => match type_prop {
                Some(value) => Ok(
                    PropSpec::Mapping {
                        name,
                        type_prop: Box::new(value),
                        validations,
                        func_unique_id,
                        inputs,
                    },
                ),
                None => Err(SpecError::UninitializedField("type_prop".to_string())),
            },
            PropSpecKind::Array => match type_prop {
                Some(value) => Ok(
                    PropSpec::Array {
                        name,
                        type_prop: Box::new(value),
                        validations,
                        func_unique_id,
                        inputs,
                    },
                ),
                None => Err(SpecError::UninitializedField("type_prop".to_string())),
            },
            PropSpecKind::Object => Ok(
                PropSpec::Object { name, entries, validations, func_unique_id, inputs },
            ),
        }
    }
}

/// An authentication function of a package.
#[derive(Clone, Debug, PartialEq, Eq)]
pub struct AuthenticationFuncSpec {
    pub func_unique_id: String,
    pub name: Option<String>,
    pub unique_id: Option<String>,
    pub deleted: bool,
}

/// Collects the fields of an authentication function before it is built.
#[derive(Clone, Debug)]
pub struct AuthenticationFuncSpecBuilder {
    pub func_unique_id: Option<String>,
    pub name: Option<String>,
    pub unique_id: Option<String>,
    pub deleted: bool,
}

impl AuthenticationFuncSpec {
    /// A builder with nothing set.
    pub fn builder() -> (r: AuthenticationFuncSpecBuilder)
        ensures
            r.func_unique_id is None,
            r.name is None,
            r.unique_id is None,
            !r.deleted,
    {
        AuthenticationFuncSpecBuilder { func_unique_id: None, name: None, unique_id: None, deleted: false }
    }
}

impl AuthenticationFuncSpecBuilder {
    pub fn func_unique_id(self, value: String) -> (r: Self)
        ensures
            r == (AuthenticationFuncSpecBuilder { func_unique_id: Some(value), ..self }),
    {
        AuthenticationFuncSpecBuilder { func_unique_id: Some(value), ..self }
    }

    pub fn name(self, value: String) -> (r: Self)
        ensures
            r == (AuthenticationFuncSpecBuilder { name: Some(value), ..self }),
    {
        AuthenticationFuncSpecBuilder { name: Some(value), ..self }
    }

    pub fn unique_id(self, value: String) -> (r: Self)
        ensures
            r == (AuthenticationFuncSpecBuilder { unique_id: Some(value), ..self }),
    {
        AuthenticationFuncSpecBuilder { unique_id: Some(value), ..self }
    }

    pub fn deleted(self, value: bool) -> (r: Self)
        ensures
            r == (AuthenticationFuncSpecBuilder { deleted: value, ..self }),
    {
        AuthenticationFuncSpecBuilder { deleted: value, ..self }
    }

    /// Builds the spec; the function's unique id is required, the rest
    /// default to unset and not deleted.
    pub fn build(self) -> (r: Result<AuthenticationFuncSpec, SpecError>)
        ensures
            self.func_unique_id is None ==> (r matches Err(SpecError::UninitializedField(f))
                && f@ == "func_unique_id"@),
            self.func_unique_id is Some ==> r == Ok::<AuthenticationFuncSpec, SpecError>(
                AuthenticationFuncSpec {
                    func_unique_id: self.func_unique_id->Some_0,
                    name: self.name,
                    unique_id: self.unique_id,
                    deleted: self.deleted,
                },
            ),
    {
        match self.func_unique_id {
            Some(func_unique_id) => Ok(
                AuthenticationFuncSpec {
                    func_unique_id,
                    name: self.name,
                    unique_id: self.unique_id,
                    deleted: self.deleted,
                },
            ),
            None => Err(SpecError::UninitializedField("func_unique_id".to_string())),
        }
    }
}

} // verus!
