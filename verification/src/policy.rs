use vstd::prelude::*;
use crate::client::BuilderError;
use crate::properties::Properties;
use crate::properties::ToValue;
use crate::query::PropertyValue;
use crate::query::ValueModel;

verus! {

/// What a policy is: a set of rules, an offer, or an agreement.
#[derive(Debug, Clone, Copy, PartialEq, Eq, Structural)]
pub enum PolicyKind {
    RuleSet,
    Offer,
    Agreement,
}

/// What a rule is about: written as a plain name, or as an identifier.
#[derive(Debug)]
pub enum Action {
    Simple(String),
    Id { id: String },
}

/// What a policy applies to: written as a plain name, or as an identifier.
#[derive(Debug)]
pub enum Target {
    Simple(String),
    Id { id: String },
}

/// The left side of a constraint.
#[derive(Debug)]
pub enum LeftOperand {
    Simple(String),
    Id { id: String },
}

/// The operator of a constraint.
#[derive(Debug)]
pub enum Operator {
    Simple(String),
    Id { id: String },
}

/// The action of a rule that names none: to use.
pub open spec fn default_action() -> Seq<char> {
    "http://www.w3.org/ns/odrl/2/use"@
}

impl Target {
    pub fn simple(target: &str) -> (out: Target)
        ensures
            out is Simple,
            out->Simple_0@ == target@,
    {
        Target::Simple(target.to_owned())
    }

    pub fn id(target: &str) -> (out: Target)
        ensures
            out is Id,
            out->id@ == target@,
    {
        Target::Id { id: target.to_owned() }
    }

    pub open spec fn id_spec(self) -> Seq<char> {
        match self {
            Target::Simple(target) => target@,
            Target::Id { id } => id@,
        }
    }

    /// The name or identifier, whichever way the target is written.
    pub fn get_id(&self) -> (out: &str)
        ensures
            out@ == self.id_spec(),
    {
        match self {
            Target::Simple(target) => target.as_str(),
            Target::Id { id } => id.as_str(),
        }
    }
}

impl Default for Action {
    fn default() -> (out: Action)
        ensures
            out is Id,
            out->id@ == default_action(),
    {
        Action::new("http://www.w3.org/ns/odrl/2/use".to_owned())
    }
}

impl Action {
    /// The name or identifier, whichever way the action is written.
    pub fn id(&self) -> (out: &String)
        ensures
            *out == match *self {
                Action::Simple(id) => id,
                Action::Id { id } => id,
            },
    {
        match self {
            Action::Simple(id) => id,
            Action::Id { id } => id,
        }
    }

    pub fn new(kind: String) -> (out: Action)
        ensures
            out == (Action::Id { id: kind }),
    {
        Action::Id { id: kind }
    }
}

impl LeftOperand {
    pub fn simple(op: &str) -> (out: LeftOperand)
        ensures
            out is Simple,
            out->Simple_0@ == op@,
    {
        LeftOperand::Simple(op.to_owned())
    }

    pub fn id(op: &str) -> (out: LeftOperand)
        ensures
            out is Id,
            out->id@ == op@,
    {
        LeftOperand::Id { id: op.to_owned() }
    }
}

impl Operator {
    pub fn simple(op: &str) -> (out: Operator)
        ensures
            out is Simple,
            out->Simple_0@ == op@,
    {
        Operator::Simple(op.to_owned())
    }

    pub fn id(op: &str) -> (out: Operator)
        ensures
            out is Id,
            out->id@ == op@,
    {
        Operator::Id { id: op.to_owned() }
    }
}

/// A constraint on a rule that compares one thing with a value.
pub struct AtomicConstraint {
    pub left_operand: LeftOperand,
    pub operator: Operator,
    pub right_operand: PropertyValue,
}

/// Several constraints of which any, all, or exactly one must hold.
pub enum MultiplicityConstraint {
    Or(Vec<Constraint>),
    And(Vec<Constraint>),
    Xone(Vec<Constraint>),
}

/// A constraint on a rule.
pub enum Constraint {
    Atomic(AtomicConstraint),
    MultiplicityConstraint(MultiplicityConstraint),
}

impl AtomicConstraint {
    /// The constraint that compares the thing named `left_operand` with
    /// `right_operand` by the operator named `operator`.
    pub fn new<T: ToValue>(left_operand: &str, operator: &str, right_operand: T) -> (out: Self)
        ensures
            out.left_operand is Simple,
            out.left_operand->Simple_0@ == left_operand@,
            out.operator is Simple,
            out.operator->Simple_0@ == operator@,
            out.right_operand.model() == right_operand.value_model(),
    {
        AtomicConstraint::new_with_operator(
            LeftOperand::Simple(left_operand.to_owned()),
            Operator::Simple(operator.to_owned()),
            right_operand,
        )
    }

    pub fn new_with_operator<T: ToValue>(
        left_operand: LeftOperand,
        operator: Operator,
        right_operand: T,
    ) -> (out: Self)
        ensures
            out.left_operand == left_operand,
            out.operator == operator,
            out.right_operand.model() == right_operand.value_model(),
    {
        AtomicConstraint { left_operand, operator, right_operand: right_operand.into_value() }
    }
}

impl LeftOperand {
    /// The operand with the identifier `value`.
    pub fn from(value: &str) -> (out: LeftOperand)
        ensures
            out is Id,
            out->id@ == value@,
    {
        LeftOperand::Id { id: value.to_owned() }
    }
}

impl Constraint {
    pub fn atomic(atomic: AtomicConstraint) -> (out: Self)
        ensures
            out == Constraint::Atomic(atomic),
    {
        Constraint::Atomic(atomic)
    }

    pub fn or(constraints: Vec<Constraint>) -> (out: Self)
        ensures
            out == Constraint::MultiplicityConstraint(MultiplicityConstraint::Or(constraints)),
    {
        Constraint::MultiplicityConstraint(MultiplicityConstraint::Or(constraints))
    }

    pub fn and(constraints: Vec<Constraint>) -> (out: Self)
        ensures
            out == Constraint::MultiplicityConstraint(MultiplicityConstraint::And(constraints)),
    {
        Constraint::MultiplicityConstraint(MultiplicityConstraint::And(constraints))
    }

    pub fn xone(constraints: Vec<Constraint>) -> (out: Self)
        ensures
            out == Constraint::MultiplicityConstraint(MultiplicityConstraint::Xone(constraints)),
    {
        Constraint::MultiplicityConstraint(MultiplicityConstraint::Xone(constraints))
    }
}

/// What may be done, under which constraints.
pub struct Permission {
    pub constraints: Vec<Constraint>,
    pub action: Action,
}

pub struct PermissionBuilder(pub Permission);

/// What must be done, under which constraints.
pub struct Obligation {
    pub action: Action,
    pub constraints: Vec<Constraint>,
}

pub struct ObligationBuilder(pub Obligation);

/// What must not be done, under which constraints.
pub struct Prohibition {
    pub action: Action,
    pub constraints: Vec<Constraint>,
}

pub struct ProhibitionBuilder(pub Prohibition);

impl Permission {
    /// A builder for a permission to use, without constraints.
    pub fn builder() -> (out: PermissionBuilder)
        ensures
            out.0.action is Id,
            out.0.action->id@ == default_action(),
            out.0.constraints@.len() == 0,
    {
        PermissionBuilder(Permission { action: Action::default(), constraints: Vec::new() })
    }

    pub fn action(&self) -> (out: &Action)
        ensures
            *out == self.action,
    {
        &self.action
    }

    pub fn constraints(&self) -> (out: &[Constraint])
        ensures
            out@ == self.constraints@,
    {
        self.constraints.as_slice()
    }
}

impl PermissionBuilder {
    pub fn constraints(self, constraints: Vec<Constraint>) -> (out: Self)
        ensures
            out.0 == (Permission { constraints, ..self.0 }),
    {
        let mut out = self;
        out.0.constraints = constraints;
        out
    }

    pub fn constraint(self, constraint: Constraint) -> (out: Self)
        ensures
            out.0.constraints@ == self.0.constraints@.push(constraint),
            out.0.action == self.0.action,
    {
        let mut out = self;
        out.0.constraints.push(constraint);
        out
    }

    pub fn action(self, action: Action) -> (out: Self)
        ensures
            out.0 == (Permission { action, ..self.0 }),
    {
        let mut out = self;
        out.0.action = action;
        out
    }

    pub fn build(self) -> (out: Permission)
        ensures
            out == self.0,
    {
        self.0
    }
}

impl Obligation {
    /// A builder for an obligation to use, without constraints.
    pub fn builder() -> (out: ObligationBuilder)
        ensures
            out.0.action is Id,
            out.0.action->id@ == default_action(),
            out.0.constraints@.len() == 0,
    {
        ObligationBuilder(Obligation { action: Action::default(), constraints: Vec::new() })
    }

    pub fn action(&self) -> (out: &Action)
        ensures
            *out == self.action,
    {
        &self.action
    }

    pub fn constraints(&self) -> (out: &[Constraint])
        ensures
            out@ == self.constraints@,
    {
        self.constraints.as_slice()
    }
}

impl ObligationBuilder {
    pub fn constraints(self, constraints: Vec<Constraint>) -> (out: Self)
        ensures
            out.0 == (Obligation { constraints, ..self.0 }),
    {
        let mut out = self;
        out.0.constraints = constraints;
        out
    }

    pub fn action(self, action: Action) -> (out: Self)
        ensures
            out.0 == (Obligation { action, ..self.0 }),
    {
        let mut out = self;
        out.0.action = action;
        out
    }

    pub fn constraint(self, constraint: Constraint) -> (out: Self)
        ensures
            out.0.constraints@ == self.0.constraints@.push(constraint),
            out.0.action == self.0.action,
    {
        let mut out = self;
        out.0.constraints.push(constraint);
        out
    }

    pub fn build(self) -> (out: Obligation)
        ensures
            out == self.0,
    {
        self.0
    }
}

impl Prohibition {
    /// A builder for a prohibition to use, without constraints.
    pub fn builder() -> (out: ProhibitionBuilder)
        ensures
            out.0.action is Id,
            out.0.action->id@ == default_action(),
            out.0.constraints@.len() == 0,
    {
        ProhibitionBuilder(Prohibition { action: Action::default(), constraints: Vec::new() })
    }

    pub fn action(&self) -> (out: &Action)
        ensures
            *out == self.action,
    {
        &self.action
    }

    pub fn constraints(&self) -> (out: &[Constraint])
        ensures
            out@ == self.constraints@,
    {
        self.constraints.as_slice()
    }
}

impl ProhibitionBuilder {
    pub fn constraints(self, constraints: Vec<Constraint>) -> (out: Self)
        ensures
            out.0 == (Prohibition { constraints, ..self.0 }),
    {
        let mut out = self;
        out.0.constraints = constraints;
        out
    }

    pub fn action(self, action: Action) -> (out: Self)
        ensures
            out.0 == (Prohibition { action, ..self.0 }),
    {
        let mut out = self;
        out.0.action = action;
        out
    }

    pub fn constraint(self, constraint: Constraint) -> (out: Self)
        ensures
            out.0.constraints@ == self.0.constraints@.push(constraint),
            out.0.action == self.0.action,
    {
        let mut out = self;
        out.0.constraints.push(constraint);
        out
    }

    pub fn build(self) -> (out: Prohibition)
        ensures
            out == self.0,
    {
        self.0
    }
}

/// A policy: who grants what to whom, and the rules.
pub struct Policy {
    pub id: Option<String>,
    pub kind: PolicyKind,
    pub assignee: Option<String>,
    pub assigner: Option<String>,
    pub target: Option<Target>,
    pub permissions: Vec<Permission>,
    pub obligations: Vec<Obligation>,
    pub prohibitions: Vec<Prohibition>,
}

pub struct PolicyBuilder(pub Policy);

impl Policy {
    /// Whether the policy is a set of rules that names nobody and nothing, with no
    /// rule in it.
    pub open spec fn is_blank(self) -> bool {
        &&& self.id is None
        &&& self.kind == PolicyKind::RuleSet
        &&& self.assignee is None
        &&& self.assigner is None
        &&& self.target is None
        &&& self.permissions@.len() == 0
        &&& self.obligations@.len() == 0
        &&& self.prohibitions@.len() == 0
    }

    pub fn builder() -> (out: PolicyBuilder)
        ensures
            out.0.is_blank(),
    {
        PolicyBuilder(
            Policy {
                id: None,
                kind: PolicyKind::RuleSet,
                assignee: None,
                assigner: None,
                target: None,
                permissions: Vec::new(),
                obligations: Vec::new(),
                prohibitions: Vec::new(),
            },
        )
    }

    pub fn kind(&self) -> (out: &PolicyKind)
        ensures
            *out == self.kind,
    {
        &self.kind
    }

    pub fn id(&self) -> (out: Option<&String>)
        ensures
            out == match self.id {
                Some(id) => Some(&id),
                None => None,
            },
    {
        self.id.as_ref()
    }

    pub fn assignee(&self) -> (out: Option<&String>)
        ensures
            out == match self.assignee {
                Some(assignee) => Some(&assignee),
                None => None,
            },
    {
        self.assignee.as_ref()
    }

    pub fn assigner(&self) -> (out: Option<&String>)
        ensures
            out == match self.assigner {
                Some(assigner) => Some(&assigner),
                None => None,
            },
    {
        self.assigner.as_ref()
    }

    pub fn target(&self) -> (out: Option<&Target>)
        ensures
            out == match self.target {
                Some(target) => Some(&target),
                None => None,
            },
    {
        self.target.as_ref()
    }

    pub fn permissions(&self) -> (out: &[Permission])
        ensures
            out@ == self.permissions@,
    {
        self.permissions.as_slice()
    }

    pub fn obligations(&self) -> (out: &[Obligation])
        ensures
            out@ == self.obligations@,
    {
        self.obligations.as_slice()
    }

    pub fn prohibitions(&self) -> (out: &[Prohibition])
        ensures
            out@ == self.prohibitions@,
    {
        self.prohibitions.as_slice()
    }
}

impl PolicyBuilder {
    pub fn id(self, id: &str) -> (out: Self)
        ensures
            out.0.id is Some,
            out.0.id->Some_0@ == id@,
            out.0 == (Policy { id: out.0.id, ..self.0 }),
    {
        let mut out = self;
        out.0.id = Some(id.to_owned());
        out
    }

    pub fn assigner(self, assigner: &str) -> (out: Self)
        ensures
            out.0.assigner is Some,
            out.0.assigner->Some_0@ == assigner@,
            out.0 == (Policy { assigner: out.0.assigner, ..self.0 }),
    {
        let mut out = self;
        out.0.assigner = Some(assigner.to_owned());
        out
    }

    pub fn target(self, target: Target) -> (out: Self)
        ensures
            out.0 == (Policy { target: Some(target), ..self.0 }),
    {
        let mut out = self;
        out.0.target = Some(target);
        out
    }

    pub fn kind(self, kind: PolicyKind) -> (out: Self)
        ensures
            out.0 == (Policy { kind, ..self.0 }),
    {
        let mut out = self;
        out.0.kind = kind;
        out
    }

    pub fn permissions(self, permissions: Vec<Permission>) -> (out: Self)
        ensures
            out.0 == (Policy { permissions, ..self.0 }),
    {
        let mut out = self;
        out.0.permissions = permissions;
        out
    }

    pub fn permission(self, permission: Permission) -> (out: Self)
        ensures
            out.0.permissions@ == self.0.permissions@.push(permission),
            out.0.id == self.0.id,
            out.0.kind == self.0.kind,
            out.0.assignee == self.0.assignee,
            out.0.assigner == self.0.assigner,
            out.0.target == self.0.target,
            out.0.obligations == self.0.obligations,
            out.0.prohibitions == self.0.prohibitions,
    {
        let mut out = self;
        out.0.permissions.push(permission);
        out
    }

    pub fn build(self) -> (out: Policy)
        ensures
            out == self.0,
    {
        self.0
    }
}

/// A policy as the connector holds it, under its identifier.
pub struct PolicyDefinition {
    pub id: String,
    pub policy: Policy,
    pub private_properties: Properties,
}

pub struct PolicyDefinitionBuilder {
    pub id: Option<String>,
    pub policy: Option<Policy>,
    pub private_properties: Properties,
}

/// A policy that is to be created.
pub struct NewPolicyDefinition {
    pub id: Option<String>,
    pub policy: Policy,
    pub private_properties: Properties,
}

pub struct NewPolicyDefinitionBuilder(pub NewPolicyDefinition);

impl Default for PolicyDefinition {
    fn default() -> (out: Self)
        ensures
            out.id@.len() == 0,
            out.policy.is_blank(),
            out.private_properties@ == Map::<Seq<char>, ValueModel>::empty(),
    {
        PolicyDefinition {
            id: String::new(),
            policy: Policy::builder().build(),
            private_properties: Properties::default(),
        }
    }
}

impl Default for NewPolicyDefinition {
    fn default() -> (out: Self)
        ensures
            out.id is None,
            out.policy.is_blank(),
            out.private_properties@ == Map::<Seq<char>, ValueModel>::empty(),
    {
        NewPolicyDefinition {
            id: None,
            policy: Policy::builder().build(),
            private_properties: Properties::default(),
        }
    }
}

impl Default for PolicyDefinitionBuilder {
    fn default() -> (out: Self)
        ensures
            out.id is None,
            out.policy is None,
            out.private_properties@ == Map::<Seq<char>, ValueModel>::empty(),
    {
        PolicyDefinitionBuilder { id: None, policy: None, private_properties: Properties::default() }
    }
}

impl PolicyDefinition {
    pub fn builder() -> (out: PolicyDefinitionBuilder)
        ensures
            out.id is None,
            out.policy is None,
            out.private_properties@ == Map::<Seq<char>, ValueModel>::empty(),
    {
        PolicyDefinitionBuilder::default()
    }

    pub fn policy(&self) -> (out: &Policy)
        ensures
            *out == self.policy,
    {
        &self.policy
    }

    pub fn id(&self) -> (out: &str)
        ensures
            out@ == self.id@,
    {
        self.id.as_str()
    }

    /// The private properties of the definition.
    pub fn private_properties(&self) -> (out: &Properties)
        ensures
            *out == self.private_properties,
    {
        &self.private_properties
    }
}

impl PolicyDefinitionBuilder {
    pub fn id(self, id: &str) -> (out: Self)
        ensures
            out.id is Some,
            out.id->Some_0@ == id@,
            out.policy == self.policy,
            out.private_properties == self.private_properties,
    {
        let mut out = self;
        out.id = Some(id.to_owned());
        out
    }

    pub fn policy(self, policy: Policy) -> (out: Self)
        ensures
            out == (PolicyDefinitionBuilder { policy: Some(policy), ..self }),
    {
        let mut out = self;
        out.policy = Some(policy);
        out
    }

    pub fn private_property<T: ToValue>(self, property: &str, value: T) -> (out: Self)
        ensures
            out.private_properties@ == self.private_properties@.insert(
                property@,
                value.value_model(),
            ),
            out.id == self.id,
            out.policy == self.policy,
    {
        let mut out = self;
        out.private_properties.set(property, value);
        out
    }

    /// The definition, if its identifier and its policy were given. Of two missing
    /// properties the identifier is the one reported.
    pub fn build(self) -> (out: Result<PolicyDefinition, BuilderError>)
        ensures
            match (self.id, self.policy) {
                (Some(id), Some(policy)) => out == Ok::<PolicyDefinition, BuilderError>(
                    PolicyDefinition { id, policy, private_properties: self.private_properties },
                ),
                (None, _) => out is Err && out->Err_0->MissingProperty_0@ == "id"@,
                (Some(_), None) => out is Err && out->Err_0->MissingProperty_0@ == "policy"@,
            },
    {
        let id = match self.id {
            Some(id) => id,
            None => {
                return Err(BuilderError::missing_property("id"));
            },
        };
        let policy = match self.policy {
            Some(policy) => policy,
            None => {
                return Err(BuilderError::missing_property("policy"));
            },
        };
        Ok(PolicyDefinition { id, policy, private_properties: self.private_properties })
    }
}

impl NewPolicyDefinition {
    pub fn builder() -> (out: NewPolicyDefinitionBuilder)
        ensures
            out.0.id is None,
            out.0.policy.is_blank(),
            out.0.private_properties@ == Map::<Seq<char>, ValueModel>::empty(),
    {
        NewPolicyDefinitionBuilder(NewPolicyDefinition::default())
    }
}

impl NewPolicyDefinitionBuilder {
    pub fn id(self, id: &str) -> (out: Self)
        ensures
            out.0.id is Some,
            out.0.id->Some_0@ == id@,
            out.0.policy == self.0.policy,
            out.0.private_properties == self.0.private_properties,
    {
        let mut out = self;
        out.0.id = Some(id.to_owned());
        out
    }

    pub fn policy(self, policy: Policy) -> (out: Self)
        ensures
            out.0 == (NewPolicyDefinition { policy, ..self.0 }),
    {
        let mut out = self;
        out.0.policy = policy;
        out
    }

    pub fn private_property<T: ToValue>(self, property: &str, value: T) -> (out: Self)
        ensures
            out.0.private_properties@ == self.0.private_properties@.insert(
                property@,
                value.value_model(),
            ),
            out.0.id == self.0.id,
            out.0.policy == self.0.policy,
    {
        let mut out = self;
        out.0.private_properties.set(property, value);
        out
    }

    pub fn build(self) -> (out: NewPolicyDefinition)
        ensures
            out == self.0,
    {
        self.0
    }
}

} // verus!
