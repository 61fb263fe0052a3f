//! Writes a state diagram in the PlantUML notation: a visitor collects one
//! line per element into a text buffer framed by the start and end
//! markers.

use vstd::prelude::*;
use vstd::string::StringExecFns;

use crate::definition::id::ID;
use crate::definition::types::{BehaviorDesc, ConstraintDesc, PseudoState, PseudoStateKind,
    StateMachine, TransitionKind, Trigger, Vertex};
use crate::format::Stringify;
use crate::visitor::{visit_state_machine, Resolver, StateMachineVisitor};

verus! {

/// Renders a metamodel state machine as PlantUML text.
#[derive(Debug)]
pub struct WritePlantUml {
    // no configuration yet
}

/// The visitor that collects the diagram text.
struct Visitor {
    container: Vec<ID>,
    buffer: String,
}

impl WritePlantUml {
    /// A writer with the default configuration.
    pub fn new() -> Self {
        WritePlantUml {  }
    }

    /// Renders the machine as PlantUML text: the start marker line, then
    /// the visited diagram body, then the end marker line.
    pub fn render(&self, machine: &StateMachine) -> (r: String)
        ensures
            exists|body: Seq<char>| r@ == #[trigger] ("@startuml\n"@ + body) + "@enduml\n"@,
    {
        let mut visitor = Visitor { container: Vec::new(), buffer: String::new() };
        let _ = visit_state_machine(machine, &mut visitor);
        let mut out: String = "@startuml\n".to_owned();
        let ghost body = visitor.buffer@;
        out.append(visitor.buffer.as_str());
        out.append("@enduml\n");
        proof {
            assert(out@ =~= ("@startuml\n"@ + body) + "@enduml\n"@);
        }
        out
    }
}

impl Default for WritePlantUml {
    fn default() -> Self {
        WritePlantUml {  }
    }
}

impl Stringify for WritePlantUml {
    type Error = ();

    /// Renders the machine. Rendering never fails; a machine that cannot
    /// be visited still yields the framing lines.
    fn stringify(&self, machine: &StateMachine) -> Result<String, Self::Error> {
        Ok(self.render(machine))
    }
}

impl Visitor {
    /// Appends text to the buffer.
    fn push_str(&mut self, string: &str) {
        self.buffer.append(string);
    }

    /// Appends text and ends the line.
    fn push_line(&mut self, string: &str) {
        self.buffer.append(string);
        self.buffer.append("\n");
    }

    /// Renders a vertex endpoint of a transition: final states and
    /// initial markers render as the filled-dot notation, other vertices
    /// by their identifier.
    fn endpoint_text(&self, resolver: &Resolver<'_>, container: &ID, id: &ID) -> String {
        match resolver.find_vertex(container, id) {
            None => "ERROR".to_owned(),
            Some(vertex) => {
                match vertex {
                    Vertex::State(state) => {
                        if state.is_final() {
                            "[*]".to_owned()
                        } else {
                            state.id.to_string()
                        }
                    },
                    Vertex::PseudoState(pseudo_state) => {
                        if pseudo_state.is_initial() {
                            "[*]".to_owned()
                        } else {
                            pseudo_state.id.to_string()
                        }
                    },
                    Vertex::ConnectionPointReference(_) => "CPR".to_owned(),
                }
            },
        }
    }
}

impl StateMachineVisitor for Visitor {
    fn enter_state_machine(
        &mut self,
        resolver: &Resolver<'_>,
        id: &ID,
        label: &Option<String>,
        machine_states: &Vec<ID>,
        connection_points: &Vec<PseudoState>,
    ) {
        let _ = resolver;
        let _ = machine_states;
        let _ = connection_points;
        self.container.push(id.clone());
        match label {
            Some(label) => {
                self.push_str("title ");
                self.push_line(label.as_str());
            },
            None => {},
        }
    }

    fn exit_state_machine(
        &mut self,
        resolver: &Resolver<'_>,
        id: &ID,
        label: &Option<String>,
        machine_states: &Vec<ID>,
        connection_points: &Vec<PseudoState>,
    ) {
        let _ = resolver;
        let _ = id;
        let _ = label;
        let _ = machine_states;
        let _ = connection_points;
        let _ = self.container.pop();
    }

    fn enter_state(
        &mut self,
        resolver: &Resolver<'_>,
        id: &ID,
        label: &Option<String>,
        region_count: usize,
        sub_machine: &Option<ID>,
        connections: &Vec<ID>,
        connection_points: &Vec<ID>,
        deferrable_triggers: &Vec<Trigger>,
        state_invariant: &Option<ConstraintDesc>,
        entry: &Option<BehaviorDesc>,
        do_activity: &Option<BehaviorDesc>,
        exit: &Option<BehaviorDesc>,
        is_final: bool,
    ) {
        let _ = resolver;
        let _ = sub_machine;
        let _ = connections;
        let _ = connection_points;
        let _ = deferrable_triggers;
        let _ = state_invariant;
        let _ = entry;
        let _ = do_activity;
        let _ = exit;
        self.container.push(id.clone());
        if !is_final {
            match label {
                Some(label) => {
                    self.push_str("state \"");
                    self.push_str(label.as_str());
                    self.push_str("\" as ");
                    let text = id.to_string();
                    self.push_str(text.as_str());
                },
                None => {
                    self.push_str("state ");
                    let text = id.to_string();
                    self.push_str(text.as_str());
                },
            }
            if region_count > 0 {
                self.push_str(" {");
            }
            self.push_line("");
        }
    }

    fn exit_state(
        &mut self,
        resolver: &Resolver<'_>,
        id: &ID,
        label: &Option<String>,
        region_count: usize,
        sub_machine: &Option<ID>,
        connections: &Vec<ID>,
        connection_points: &Vec<ID>,
        deferrable_triggers: &Vec<Trigger>,
        state_invariant: &Option<ConstraintDesc>,
        entry: &Option<BehaviorDesc>,
        do_activity: &Option<BehaviorDesc>,
        exit: &Option<BehaviorDesc>,
        is_final: bool,
    ) {
        let _ = resolver;
        let _ = label;
        let _ = sub_machine;
        let _ = connections;
        let _ = connection_points;
        let _ = deferrable_triggers;
        let _ = state_invariant;
        if !is_final {
            if region_count > 0 {
                self.push_line("}");
            }
            match entry {
                Some(entry) => {
                    let text = id.to_string();
                    self.push_str(text.as_str());
                    self.push_str(" : entry / ");
                    match &entry.label {
                        Some(l) => self.push_line(l.as_str()),
                        None => self.push_line("()"),
                    }
                },
                None => {},
            }
            match do_activity {
                Some(do_activity) => {
                    let text = id.to_string();
                    self.push_str(text.as_str());
                    self.push_str(" : do / ");
                    match &do_activity.label {
                        Some(l) => self.push_line(l.as_str()),
                        None => self.push_line("()"),
                    }
                },
                None => {},
            }
            match exit {
                Some(exit) => {
                    let text = id.to_string();
                    self.push_str(text.as_str());
                    self.push_str(" : exit / ");
                    match &exit.label {
                        Some(l) => self.push_line(l.as_str()),
                        None => self.push_line("()"),
                    }
                },
                None => {},
            }
        }
        let _ = self.container.pop();
    }

    fn enter_region(&mut self, resolver: &Resolver<'_>, id: &ID, label: &Option<String>, last: bool) {
        let _ = resolver;
        let _ = label;
        let _ = last;
        self.container.push(id.clone());
    }

    fn exit_region(&mut self, resolver: &Resolver<'_>, id: &ID, label: &Option<String>, last: bool) {
        let _ = resolver;
        let _ = id;
        let _ = label;
        if !last {
            self.push_line("--");
        }
        let _ = self.container.pop();
    }

    fn pseudo_state(
        &mut self,
        resolver: &Resolver<'_>,
        id: &ID,
        label: &Option<String>,
        kind: &PseudoStateKind,
    ) {
        // only the initial marker has a PlantUML rendering here; it is
        // drawn by the transitions that touch it, so nothing is emitted
        let _ = resolver;
        let _ = id;
        let _ = label;
        let _ = kind;
    }

    fn transition(
        &mut self,
        resolver: &Resolver<'_>,
        label: &Option<String>,
        kind: TransitionKind,
        source: &ID,
        target: &ID,
        triggers: &Vec<Trigger>,
        guard: &Option<ConstraintDesc>,
        effect: &Option<BehaviorDesc>,
    ) {
        let _ = kind;
        let _ = triggers;
        let container = match self.container.len() {
            0 => ID::invalid(),
            n => self.container[n - 1].clone(),
        };
        let source_text = self.endpoint_text(resolver, &container, source);
        let target_text = self.endpoint_text(resolver, &container, target);
        self.push_str(source_text.as_str());
        self.push_str(" --> ");
        self.push_str(target_text.as_str());
        let mut all_label = String::new();
        match guard {
            Some(guard) => {
                match &guard.label {
                    Some(l) => {
                        all_label.append("[");
                        all_label.append(l.as_str());
                        all_label.append("] ");
                    },
                    None => {},
                }
            },
            None => {},
        }
        match label {
            Some(label) => {
                all_label.append(label.as_str());
                all_label.append(" ");
            },
            None => {},
        }
        match effect {
            Some(effect) => {
                match &effect.label {
                    Some(l) => {
                        all_label.append("/ ");
                        all_label.append(l.as_str());
                        all_label.append(" ");
                    },
                    None => {},
                }
            },
            None => {},
        }
        if !all_label.as_str().is_empty() {
            self.push_str(" : ");
            self.push_line(all_label.as_str());
        } else {
            self.push_line("");
        }
    }
}

} // verus!
