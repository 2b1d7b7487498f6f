//! Static arXiv subject taxonomy.
//!
//! Three-level hierarchy mirroring arxiv.org's category browser:
//!     Group   → e.g. "Computer Science"
//!     Archive → e.g. "Computing Research Repository" (cs)
//!     Category → e.g. "Machine Learning" (cs.LG)
//!
//! The table is stated once as a specification ([`taxonomy_spec`]) and built
//! by [`taxonomy`], which is proved to produce exactly that table.

use vstd::prelude::*;

use crate::text::{
    ascii_lower_chars, ascii_lower_seq, eq_ignore_ascii_case, has_prefix, starts_with_chars, str_eq,
    str_eq_ignore_ascii_case,
};
use vstd::std_specs::iter::IteratorSpec;

verus! {

/// A single arXiv category — the leaf of the taxonomy. `code` is the
/// canonical arXiv form (e.g. `cs.LG`, or a bare archive id like `gr-qc`).
#[derive(Clone, Copy, Debug)]
pub struct Category {
    pub code: &'static str,
    pub name: &'static str,
}

/// An arXiv archive — one or more categories sharing a submission stream.
#[derive(Clone, Debug)]
pub struct Archive {
    pub id: &'static str,
    pub name: &'static str,
    pub categories: Vec<Category>,
}

/// A top-level arXiv group — the column headers on arxiv.org's home page.
#[derive(Clone, Debug)]
pub struct Group {
    pub id: &'static str,
    pub name: &'static str,
    pub archives: Vec<Archive>,
}

/// Abstract archive: its categories as a sequence.
pub struct ArchiveSpec {
    pub id: &'static str,
    pub name: &'static str,
    pub categories: Seq<Category>,
}

/// Abstract group: its archives as a sequence.
pub struct GroupSpec {
    pub id: &'static str,
    pub name: &'static str,
    pub archives: Seq<ArchiveSpec>,
}

impl View for Archive {
    type V = ArchiveSpec;

    open spec fn view(&self) -> ArchiveSpec {
        ArchiveSpec { id: self.id, name: self.name, categories: self.categories@ }
    }
}

impl View for Group {
    type V = GroupSpec;

    open spec fn view(&self) -> GroupSpec {
        GroupSpec { id: self.id, name: self.name, archives: self.archives@.map_values(|a: Archive| a@) }
    }
}

/// Categories of the `astro-ph` archive.
pub open spec fn cats_astro_ph() -> Seq<Category> {
    seq![
        Category { code: "astro-ph.CO", name: "Cosmology and Nongalactic Astrophysics" },
        Category { code: "astro-ph.EP", name: "Earth and Planetary Astrophysics" },
        Category { code: "astro-ph.GA", name: "Astrophysics of Galaxies" },
        Category { code: "astro-ph.HE", name: "High Energy Astrophysical Phenomena" },
        Category { code: "astro-ph.IM", name: "Instrumentation and Methods for Astrophysics" },
        Category { code: "astro-ph.SR", name: "Solar and Stellar Astrophysics" },
    ]
}

/// Categories of the `cond-mat` archive.
pub open spec fn cats_cond_mat() -> Seq<Category> {
    seq![
        Category { code: "cond-mat.dis-nn", name: "Disordered Systems and Neural Networks" },
        Category { code: "cond-mat.mes-hall", name: "Mesoscale and Nanoscale Physics" },
        Category { code: "cond-mat.mtrl-sci", name: "Materials Science" },
        Category { code: "cond-mat.other", name: "Other Condensed Matter" },
        Category { code: "cond-mat.quant-gas", name: "Quantum Gases" },
        Category { code: "cond-mat.soft", name: "Soft Condensed Matter" },
        Category { code: "cond-mat.stat-mech", name: "Statistical Mechanics" },
        Category { code: "cond-mat.str-el", name: "Strongly Correlated Electrons" },
        Category { code: "cond-mat.supr-con", name: "Superconductivity" },
    ]
}

/// Categories of the `gr-qc` archive.
pub open spec fn cats_gr_qc() -> Seq<Category> {
    seq![
        Category { code: "gr-qc", name: "General Relativity and Quantum Cosmology" },
    ]
}

/// Categories of the `hep-ex` archive.
pub open spec fn cats_hep_ex() -> Seq<Category> {
    seq![
        Category { code: "hep-ex", name: "High Energy Physics — Experiment" },
    ]
}

/// Categories of the `hep-lat` archive.
pub open spec fn cats_hep_lat() -> Seq<Category> {
    seq![
        Category { code: "hep-lat", name: "High Energy Physics — Lattice" },
    ]
}

/// Categories of the `hep-ph` archive.
pub open spec fn cats_hep_ph() -> Seq<Category> {
    seq![
        Category { code: "hep-ph", name: "High Energy Physics — Phenomenology" },
    ]
}

/// Categories of the `hep-th` archive.
pub open spec fn cats_hep_th() -> Seq<Category> {
    seq![
        Category { code: "hep-th", name: "High Energy Physics — Theory" },
    ]
}

/// Categories of the `math-ph` archive.
pub open spec fn cats_math_ph() -> Seq<Category> {
    seq![
        Category { code: "math-ph", name: "Mathematical Physics" },
    ]
}

/// Categories of the `nlin` archive.
pub open spec fn cats_nlin() -> Seq<Category> {
    seq![
        Category { code: "nlin.AO", name: "Adaptation and Self-Organizing Systems" },
        Category { code: "nlin.CD", name: "Chaotic Dynamics" },
        Category { code: "nlin.CG", name: "Cellular Automata and Lattice Gases" },
        Category { code: "nlin.PS", name: "Pattern Formation and Solitons" },
        Category { code: "nlin.SI", name: "Exactly Solvable and Integrable Systems" },
    ]
}

/// Categories of the `nucl-ex` archive.
pub open spec fn cats_nucl_ex() -> Seq<Category> {
    seq![
        Category { code: "nucl-ex", name: "Nuclear Experiment" },
    ]
}

/// Categories of the `nucl-th` archive.
pub open spec fn cats_nucl_th() -> Seq<Category> {
    seq![
        Category { code: "nucl-th", name: "Nuclear Theory" },
    ]
}

/// Categories of the `physics` archive.
pub open spec fn cats_physics() -> Seq<Category> {
    seq![
        Category { code: "physics.acc-ph", name: "Accelerator Physics" },
        Category { code: "physics.ao-ph", name: "Atmospheric and Oceanic Physics" },
        Category { code: "physics.app-ph", name: "Applied Physics" },
        Category { code: "physics.atm-clus", name: "Atomic and Molecular Clusters" },
        Category { code: "physics.atom-ph", name: "Atomic Physics" },
        Category { code: "physics.bio-ph", name: "Biological Physics" },
        Category { code: "physics.chem-ph", name: "Chemical Physics" },
        Category { code: "physics.class-ph", name: "Classical Physics" },
        Category { code: "physics.comp-ph", name: "Computational Physics" },
        Category { code: "physics.data-an", name: "Data Analysis, Statistics and Probability" },
        Category { code: "physics.ed-ph", name: "Physics Education" },
        Category { code: "physics.flu-dyn", name: "Fluid Dynamics" },
        Category { code: "physics.gen-ph", name: "General Physics" },
        Category { code: "physics.geo-ph", name: "Geophysics" },
        Category { code: "physics.hist-ph", name: "History and Philosophy of Physics" },
        Category { code: "physics.ins-det", name: "Instrumentation and Detectors" },
        Category { code: "physics.med-ph", name: "Medical Physics" },
        Category { code: "physics.optics", name: "Optics" },
        Category { code: "physics.plasm-ph", name: "Plasma Physics" },
        Category { code: "physics.pop-ph", name: "Popular Physics" },
        Category { code: "physics.soc-ph", name: "Physics and Society" },
        Category { code: "physics.space-ph", name: "Space Physics" },
    ]
}

/// Categories of the `quant-ph` archive.
pub open spec fn cats_quant_ph() -> Seq<Category> {
    seq![
        Category { code: "quant-ph", name: "Quantum Physics" },
    ]
}

/// Categories of the `math` archive.
pub open spec fn cats_math() -> Seq<Category> {
    seq![
        Category { code: "math.AC", name: "Commutative Algebra" },
        Category { code: "math.AG", name: "Algebraic Geometry" },
        Category { code: "math.AP", name: "Analysis of PDEs" },
        Category { code: "math.AT", name: "Algebraic Topology" },
        Category { code: "math.CA", name: "Classical Analysis and ODEs" },
        Category { code: "math.CO", name: "Combinatorics" },
        Category { code: "math.CT", name: "Category Theory" },
        Category { code: "math.CV", name: "Complex Variables" },
        Category { code: "math.DG", name: "Differential Geometry" },
        Category { code: "math.DS", name: "Dynamical Systems" },
        Category { code: "math.FA", name: "Functional Analysis" },
        Category { code: "math.GM", name: "General Mathematics" },
        Category { code: "math.GN", name: "General Topology" },
        Category { code: "math.GR", name: "Group Theory" },
        Category { code: "math.GT", name: "Geometric Topology" },
        Category { code: "math.HO", name: "History and Overview" },
        Category { code: "math.IT", name: "Information Theory" },
        Category { code: "math.KT", name: "K-Theory and Homology" },
        Category { code: "math.LO", name: "Logic" },
        Category { code: "math.MG", name: "Metric Geometry" },
        Category { code: "math.MP", name: "Mathematical Physics" },
        Category { code: "math.NA", name: "Numerical Analysis" },
        Category { code: "math.NT", name: "Number Theory" },
        Category { code: "math.OA", name: "Operator Algebras" },
        Category { code: "math.OC", name: "Optimization and Control" },
        Category { code: "math.PR", name: "Probability" },
        Category { code: "math.QA", name: "Quantum Algebra" },
        Category { code: "math.RA", name: "Rings and Algebras" },
        Category { code: "math.RT", name: "Representation Theory" },
        Category { code: "math.SG", name: "Symplectic Geometry" },
        Category { code: "math.SP", name: "Spectral Theory" },
        Category { code: "math.ST", name: "Statistics Theory" },
    ]
}

/// Categories of the `cs` archive.
pub open spec fn cats_cs() -> Seq<Category> {
    seq![
        Category { code: "cs.AI", name: "Artificial Intelligence" },
        Category { code: "cs.AR", name: "Hardware Architecture" },
        Category { code: "cs.CC", name: "Computational Complexity" },
        Category { code: "cs.CE", name: "Computational Engineering, Finance, and Science" },
        Category { code: "cs.CG", name: "Computational Geometry" },
        Category { code: "cs.CL", name: "Computation and Language" },
        Category { code: "cs.CR", name: "Cryptography and Security" },
        Category { code: "cs.CV", name: "Computer Vision and Pattern Recognition" },
        Category { code: "cs.CY", name: "Computers and Society" },
        Category { code: "cs.DB", name: "Databases" },
        Category { code: "cs.DC", name: "Distributed, Parallel, and Cluster Computing" },
        Category { code: "cs.DL", name: "Digital Libraries" },
        Category { code: "cs.DM", name: "Discrete Mathematics" },
        Category { code: "cs.DS", name: "Data Structures and Algorithms" },
        Category { code: "cs.ET", name: "Emerging Technologies" },
        Category { code: "cs.FL", name: "Formal Languages and Automata Theory" },
        Category { code: "cs.GL", name: "General Literature" },
        Category { code: "cs.GR", name: "Graphics" },
        Category { code: "cs.GT", name: "Computer Science and Game Theory" },
        Category { code: "cs.HC", name: "Human-Computer Interaction" },
        Category { code: "cs.IR", name: "Information Retrieval" },
        Category { code: "cs.IT", name: "Information Theory" },
        Category { code: "cs.LG", name: "Machine Learning" },
        Category { code: "cs.LO", name: "Logic in Computer Science" },
        Category { code: "cs.MA", name: "Multiagent Systems" },
        Category { code: "cs.MM", name: "Multimedia" },
        Category { code: "cs.MS", name: "Mathematical Software" },
        Category { code: "cs.NA", name: "Numerical Analysis" },
        Category { code: "cs.NE", name: "Neural and Evolutionary Computing" },
        Category { code: "cs.NI", name: "Networking and Internet Architecture" },
        Category { code: "cs.OH", name: "Other Computer Science" },
        Category { code: "cs.OS", name: "Operating Systems" },
        Category { code: "cs.PF", name: "Performance" },
        Category { code: "cs.PL", name: "Programming Languages" },
        Category { code: "cs.RO", name: "Robotics" },
        Category { code: "cs.SC", name: "Symbolic Computation" },
        Category { code: "cs.SD", name: "Sound" },
        Category { code: "cs.SE", name: "Software Engineering" },
        Category { code: "cs.SI", name: "Social and Information Networks" },
        Category { code: "cs.SY", name: "Systems and Control" },
    ]
}

/// Categories of the `q-bio` archive.
pub open spec fn cats_q_bio() -> Seq<Category> {
    seq![
        Category { code: "q-bio.BM", name: "Biomolecules" },
        Category { code: "q-bio.CB", name: "Cell Behavior" },
        Category { code: "q-bio.GN", name: "Genomics" },
        Category { code: "q-bio.MN", name: "Molecular Networks" },
        Category { code: "q-bio.NC", name: "Neurons and Cognition" },
        Category { code: "q-bio.OT", name: "Other Quantitative Biology" },
        Category { code: "q-bio.PE", name: "Populations and Evolution" },
        Category { code: "q-bio.QM", name: "Quantitative Methods" },
        Category { code: "q-bio.SC", name: "Subcellular Processes" },
        Category { code: "q-bio.TO", name: "Tissues and Organs" },
    ]
}

/// Categories of the `q-fin` archive.
pub open spec fn cats_q_fin() -> Seq<Category> {
    seq![
        Category { code: "q-fin.CP", name: "Computational Finance" },
        Category { code: "q-fin.EC", name: "Economics" },
        Category { code: "q-fin.GN", name: "General Finance" },
        Category { code: "q-fin.MF", name: "Mathematical Finance" },
        Category { code: "q-fin.PM", name: "Portfolio Management" },
        Category { code: "q-fin.PR", name: "Pricing of Securities" },
        Category { code: "q-fin.RM", name: "Risk Management" },
        Category { code: "q-fin.ST", name: "Statistical Finance" },
        Category { code: "q-fin.TR", name: "Trading and Market Microstructure" },
    ]
}

/// Categories of the `stat` archive.
pub open spec fn cats_stat() -> Seq<Category> {
    seq![
        Category { code: "stat.AP", name: "Applications" },
        Category { code: "stat.CO", name: "Computation" },
        Category { code: "stat.ME", name: "Methodology" },
        Category { code: "stat.ML", name: "Machine Learning" },
        Category { code: "stat.OT", name: "Other Statistics" },
        Category { code: "stat.TH", name: "Statistics Theory" },
    ]
}

/// Categories of the `eess` archive.
pub open spec fn cats_eess() -> Seq<Category> {
    seq![
        Category { code: "eess.AS", name: "Audio and Speech Processing" },
        Category { code: "eess.IV", name: "Image and Video Processing" },
        Category { code: "eess.SP", name: "Signal Processing" },
        Category { code: "eess.SY", name: "Systems and Control" },
    ]
}

/// Categories of the `econ` archive.
pub open spec fn cats_econ() -> Seq<Category> {
    seq![
        Category { code: "econ.EM", name: "Econometrics" },
        Category { code: "econ.GN", name: "General Economics" },
        Category { code: "econ.TH", name: "Theoretical Economics" },
    ]
}

/// The whole taxonomy: 8 groups, 155 categories.
pub open spec fn taxonomy_spec() -> Seq<GroupSpec> {
    seq![
        GroupSpec {
            id: "physics",
            name: "Physics",
            archives: seq![
                ArchiveSpec { id: "astro-ph", name: "Astrophysics", categories: cats_astro_ph() },
                ArchiveSpec { id: "cond-mat", name: "Condensed Matter", categories: cats_cond_mat() },
                ArchiveSpec { id: "gr-qc", name: "General Relativity and Quantum Cosmology", categories: cats_gr_qc() },
                ArchiveSpec { id: "hep-ex", name: "High Energy Physics — Experiment", categories: cats_hep_ex() },
                ArchiveSpec { id: "hep-lat", name: "High Energy Physics — Lattice", categories: cats_hep_lat() },
                ArchiveSpec { id: "hep-ph", name: "High Energy Physics — Phenomenology", categories: cats_hep_ph() },
                ArchiveSpec { id: "hep-th", name: "High Energy Physics — Theory", categories: cats_hep_th() },
                ArchiveSpec { id: "math-ph", name: "Mathematical Physics", categories: cats_math_ph() },
                ArchiveSpec { id: "nlin", name: "Nonlinear Sciences", categories: cats_nlin() },
                ArchiveSpec { id: "nucl-ex", name: "Nuclear Experiment", categories: cats_nucl_ex() },
                ArchiveSpec { id: "nucl-th", name: "Nuclear Theory", categories: cats_nucl_th() },
                ArchiveSpec { id: "physics", name: "Physics (other)", categories: cats_physics() },
                ArchiveSpec { id: "quant-ph", name: "Quantum Physics", categories: cats_quant_ph() },
            ],
        },
        GroupSpec {
            id: "math",
            name: "Mathematics",
            archives: seq![
                ArchiveSpec { id: "math", name: "Mathematics", categories: cats_math() },
            ],
        },
        GroupSpec {
            id: "cs",
            name: "Computer Science",
            archives: seq![
                ArchiveSpec { id: "cs", name: "Computing Research Repository", categories: cats_cs() },
            ],
        },
        GroupSpec {
            id: "q-bio",
            name: "Quantitative Biology",
            archives: seq![
                ArchiveSpec { id: "q-bio", name: "Quantitative Biology", categories: cats_q_bio() },
            ],
        },
        GroupSpec {
            id: "q-fin",
            name: "Quantitative Finance",
            archives: seq![
                ArchiveSpec { id: "q-fin", name: "Quantitative Finance", categories: cats_q_fin() },
            ],
        },
        GroupSpec {
            id: "stat",
            name: "Statistics",
            archives: seq![
                ArchiveSpec { id: "stat", name: "Statistics", categories: cats_stat() },
            ],
        },
        GroupSpec {
            id: "eess",
            name: "Electrical Engineering and Systems Science",
            archives: seq![
                ArchiveSpec { id: "eess", name: "Electrical Engineering and Systems Science", categories: cats_eess() },
            ],
        },
        GroupSpec {
            id: "econ",
            name: "Economics",
            archives: seq![
                ArchiveSpec { id: "econ", name: "Economics", categories: cats_econ() },
            ],
        },
    ]
}

fn archive_astro_ph() -> (a: Archive)
    ensures
        a@ == (ArchiveSpec { id: "astro-ph", name: "Astrophysics", categories: cats_astro_ph() }),
{
    let categories = vec![
        Category { code: "astro-ph.CO", name: "Cosmology and Nongalactic Astrophysics" },
        Category { code: "astro-ph.EP", name: "Earth and Planetary Astrophysics" },
        Category { code: "astro-ph.GA", name: "Astrophysics of Galaxies" },
        Category { code: "astro-ph.HE", name: "High Energy Astrophysical Phenomena" },
        Category { code: "astro-ph.IM", name: "Instrumentation and Methods for Astrophysics" },
        Category { code: "astro-ph.SR", name: "Solar and Stellar Astrophysics" },
    ];
    assert(categories@ =~= cats_astro_ph());
    Archive { id: "astro-ph", name: "Astrophysics", categories }
}

fn archive_cond_mat() -> (a: Archive)
    ensures
        a@ == (ArchiveSpec { id: "cond-mat", name: "Condensed Matter", categories: cats_cond_mat() }),
{
    let categories = vec![
        Category { code: "cond-mat.dis-nn", name: "Disordered Systems and Neural Networks" },
        Category { code: "cond-mat.mes-hall", name: "Mesoscale and Nanoscale Physics" },
        Category { code: "cond-mat.mtrl-sci", name: "Materials Science" },
        Category { code: "cond-mat.other", name: "Other Condensed Matter" },
        Category { code: "cond-mat.quant-gas", name: "Quantum Gases" },
        Category { code: "cond-mat.soft", name: "Soft Condensed Matter" },
        Category { code: "cond-mat.stat-mech", name: "Statistical Mechanics" },
        Category { code: "cond-mat.str-el", name: "Strongly Correlated Electrons" },
        Category { code: "cond-mat.supr-con", name: "Superconductivity" },
    ];
    assert(categories@ =~= cats_cond_mat());
    Archive { id: "cond-mat", name: "Condensed Matter", categories }
}

fn archive_gr_qc() -> (a: Archive)
    ensures
        a@ == (ArchiveSpec { id: "gr-qc", name: "General Relativity and Quantum Cosmology", categories: cats_gr_qc() }),
{
    let categories = vec![
        Category { code: "gr-qc", name: "General Relativity and Quantum Cosmology" },
    ];
    assert(categories@ =~= cats_gr_qc());
    Archive { id: "gr-qc", name: "General Relativity and Quantum Cosmology", categories }
}

fn archive_hep_ex() -> (a: Archive)
    ensures
        a@ == (ArchiveSpec { id: "hep-ex", name: "High Energy Physics — Experiment", categories: cats_hep_ex() }),
{
    let categories = vec![
        Category { code: "hep-ex", name: "High Energy Physics — Experiment" },
    ];
    assert(categories@ =~= cats_hep_ex());
    Archive { id: "hep-ex", name: "High Energy Physics — Experiment", categories }
}

fn archive_hep_lat() -> (a: Archive)
    ensures
        a@ == (ArchiveSpec { id: "hep-lat", name: "High Energy Physics — Lattice", categories: cats_hep_lat() }),
{
    let categories = vec![
        Category { code: "hep-lat", name: "High Energy Physics — Lattice" },
    ];
    assert(categories@ =~= cats_hep_lat());
    Archive { id: "hep-lat", name: "High Energy Physics — Lattice", categories }
}

fn archive_hep_ph() -> (a: Archive)
    ensures
        a@ == (ArchiveSpec { id: "hep-ph", name: "High Energy Physics — Phenomenology", categories: cats_hep_ph() }),
{
    let categories = vec![
        Category { code: "hep-ph", name: "High Energy Physics — Phenomenology" },
    ];
    assert(categories@ =~= cats_hep_ph());
    Archive { id: "hep-ph", name: "High Energy Physics — Phenomenology", categories }
}

fn archive_hep_th() -> (a: Archive)
    ensures
        a@ == (ArchiveSpec { id: "hep-th", name: "High Energy Physics — Theory", categories: cats_hep_th() }),
{
    let categories = vec![
        Category { code: "hep-th", name: "High Energy Physics — Theory" },
    ];
    assert(categories@ =~= cats_hep_th());
    Archive { id: "hep-th", name: "High Energy Physics — Theory", categories }
}

fn archive_math_ph() -> (a: Archive)
    ensures
        a@ == (ArchiveSpec { id: "math-ph", name: "Mathematical Physics", categories: cats_math_ph() }),
{
    let categories = vec![
        Category { code: "math-ph", name: "Mathematical Physics" },
    ];
    assert(categories@ =~= cats_math_ph());
    Archive { id: "math-ph", name: "Mathematical Physics", categories }
}

fn archive_nlin() -> (a: Archive)
    ensures
        a@ == (ArchiveSpec { id: "nlin", name: "Nonlinear Sciences", categories: cats_nlin() }),
{
    let categories = vec![
        Category { code: "nlin.AO", name: "Adaptation and Self-Organizing Systems" },
        Category { code: "nlin.CD", name: "Chaotic Dynamics" },
        Category { code: "nlin.CG", name: "Cellular Automata and Lattice Gases" },
        Category { code: "nlin.PS", name: "Pattern Formation and Solitons" },
        Category { code: "nlin.SI", name: "Exactly Solvable and Integrable Systems" },
    ];
    assert(categories@ =~= cats_nlin());
    Archive { id: "nlin", name: "Nonlinear Sciences", categories }
}

fn archive_nucl_ex() -> (a: Archive)
    ensures
        a@ == (ArchiveSpec { id: "nucl-ex", name: "Nuclear Experiment", categories: cats_nucl_ex() }),
{
    let categories = vec![
        Category { code: "nucl-ex", name: "Nuclear Experiment" },
    ];
    assert(categories@ =~= cats_nucl_ex());
    Archive { id: "nucl-ex", name: "Nuclear Experiment", categories }
}

fn archive_nucl_th() -> (a: Archive)
    ensures
        a@ == (ArchiveSpec { id: "nucl-th", name: "Nuclear Theory", categories: cats_nucl_th() }),
{
    let categories = vec![
        Category { code: "nucl-th", name: "Nuclear Theory" },
    ];
    assert(categories@ =~= cats_nucl_th());
    Archive { id: "nucl-th", name: "Nuclear Theory", categories }
}

fn archive_physics() -> (a: Archive)
    ensures
        a@ == (ArchiveSpec { id: "physics", name: "Physics (other)", categories: cats_physics() }),
{
    let categories = vec![
        Category { code: "physics.acc-ph", name: "Accelerator Physics" },
        Category { code: "physics.ao-ph", name: "Atmospheric and Oceanic Physics" },
        Category { code: "physics.app-ph", name: "Applied Physics" },
        Category { code: "physics.atm-clus", name: "Atomic and Molecular Clusters" },
        Category { code: "physics.atom-ph", name: "Atomic Physics" },
        Category { code: "physics.bio-ph", name: "Biological Physics" },
        Category { code: "physics.chem-ph", name: "Chemical Physics" },
        Category { code: "physics.class-ph", name: "Classical Physics" },
        Category { code: "physics.comp-ph", name: "Computational Physics" },
        Category { code: "physics.data-an", name: "Data Analysis, Statistics and Probability" },
        Category { code: "physics.ed-ph", name: "Physics Education" },
        Category { code: "physics.flu-dyn", name: "Fluid Dynamics" },
        Category { code: "physics.gen-ph", name: "General Physics" },
        Category { code: "physics.geo-ph", name: "Geophysics" },
        Category { code: "physics.hist-ph", name: "History and Philosophy of Physics" },
        Category { code: "physics.ins-det", name: "Instrumentation and Detectors" },
        Category { code: "physics.med-ph", name: "Medical Physics" },
        Category { code: "physics.optics", name: "Optics" },
        Category { code: "physics.plasm-ph", name: "Plasma Physics" },
        Category { code: "physics.pop-ph", name: "Popular Physics" },
        Category { code: "physics.soc-ph", name: "Physics and Society" },
        Category { code: "physics.space-ph", name: "Space Physics" },
    ];
    assert(categories@ =~= cats_physics());
    Archive { id: "physics", name: "Physics (other)", categories }
}

fn archive_quant_ph() -> (a: Archive)
    ensures
        a@ == (ArchiveSpec { id: "quant-ph", name: "Quantum Physics", categories: cats_quant_ph() }),
{
    let categories = vec![
        Category { code: "quant-ph", name: "Quantum Physics" },
    ];
    assert(categories@ =~= cats_quant_ph());
    Archive { id: "quant-ph", name: "Quantum Physics", categories }
}

fn archive_math() -> (a: Archive)
    ensures
        a@ == (ArchiveSpec { id: "math", name: "Mathematics", categories: cats_math() }),
{
    let categories = vec![
        Category { code: "math.AC", name: "Commutative Algebra" },
        Category { code: "math.AG", name: "Algebraic Geometry" },
        Category { code: "math.AP", name: "Analysis of PDEs" },
        Category { code: "math.AT", name: "Algebraic Topology" },
        Category { code: "math.CA", name: "Classical Analysis and ODEs" },
        Category { code: "math.CO", name: "Combinatorics" },
        Category { code: "math.CT", name: "Category Theory" },
        Category { code: "math.CV", name: "Complex Variables" },
        Category { code: "math.DG", name: "Differential Geometry" },
        Category { code: "math.DS", name: "Dynamical Systems" },
        Category { code: "math.FA", name: "Functional Analysis" },
        Category { code: "math.GM", name: "General Mathematics" },
        Category { code: "math.GN", name: "General Topology" },
        Category { code: "math.GR", name: "Group Theory" },
        Category { code: "math.GT", name: "Geometric Topology" },
        Category { code: "math.HO", name: "History and Overview" },
        Category { code: "math.IT", name: "Information Theory" },
        Category { code: "math.KT", name: "K-Theory and Homology" },
        Category { code: "math.LO", name: "Logic" },
        Category { code: "math.MG", name: "Metric Geometry" },
        Category { code: "math.MP", name: "Mathematical Physics" },
        Category { code: "math.NA", name: "Numerical Analysis" },
        Category { code: "math.NT", name: "Number Theory" },
        Category { code: "math.OA", name: "Operator Algebras" },
        Category { code: "math.OC", name: "Optimization and Control" },
        Category { code: "math.PR", name: "Probability" },
        Category { code: "math.QA", name: "Quantum Algebra" },
        Category { code: "math.RA", name: "Rings and Algebras" },
        Category { code: "math.RT", name: "Representation Theory" },
        Category { code: "math.SG", name: "Symplectic Geometry" },
        Category { code: "math.SP", name: "Spectral Theory" },
        Category { code: "math.ST", name: "Statistics Theory" },
    ];
    assert(categories@ =~= cats_math());
    Archive { id: "math", name: "Mathematics", categories }
}

fn archive_cs() -> (a: Archive)
    ensures
        a@ == (ArchiveSpec { id: "cs", name: "Computing Research Repository", categories: cats_cs() }),
{
    let categories = vec![
        Category { code: "cs.AI", name: "Artificial Intelligence" },
        Category { code: "cs.AR", name: "Hardware Architecture" },
        Category { code: "cs.CC", name: "Computational Complexity" },
        Category { code: "cs.CE", name: "Computational Engineering, Finance, and Science" },
        Category { code: "cs.CG", name: "Computational Geometry" },
        Category { code: "cs.CL", name: "Computation and Language" },
        Category { code: "cs.CR", name: "Cryptography and Security" },
        Category { code: "cs.CV", name: "Computer Vision and Pattern Recognition" },
        Category { code: "cs.CY", name: "Computers and Society" },
        Category { code: "cs.DB", name: "Databases" },
        Category { code: "cs.DC", name: "Distributed, Parallel, and Cluster Computing" },
        Category { code: "cs.DL", name: "Digital Libraries" },
        Category { code: "cs.DM", name: "Discrete Mathematics" },
        Category { code: "cs.DS", name: "Data Structures and Algorithms" },
        Category { code: "cs.ET", name: "Emerging Technologies" },
        Category { code: "cs.FL", name: "Formal Languages and Automata Theory" },
        Category { code: "cs.GL", name: "General Literature" },
        Category { code: "cs.GR", name: "Graphics" },
        Category { code: "cs.GT", name: "Computer Science and Game Theory" },
        Category { code: "cs.HC", name: "Human-Computer Interaction" },
        Category { code: "cs.IR", name: "Information Retrieval" },
        Category { code: "cs.IT", name: "Information Theory" },
        Category { code: "cs.LG", name: "Machine Learning" },
        Category { code: "cs.LO", name: "Logic in Computer Science" },
        Category { code: "cs.MA", name: "Multiagent Systems" },
        Category { code: "cs.MM", name: "Multimedia" },
        Category { code: "cs.MS", name: "Mathematical Software" },
        Category { code: "cs.NA", name: "Numerical Analysis" },
        Category { code: "cs.NE", name: "Neural and Evolutionary Computing" },
        Category { code: "cs.NI", name: "Networking and Internet Architecture" },
        Category { code: "cs.OH", name: "Other Computer Science" },
        Category { code: "cs.OS", name: "Operating Systems" },
        Category { code: "cs.PF", name: "Performance" },
        Category { code: "cs.PL", name: "Programming Languages" },
        Category { code: "cs.RO", name: "Robotics" },
        Category { code: "cs.SC", name: "Symbolic Computation" },
        Category { code: "cs.SD", name: "Sound" },
        Category { code: "cs.SE", name: "Software Engineering" },
        Category { code: "cs.SI", name: "Social and Information Networks" },
        Category { code: "cs.SY", name: "Systems and Control" },
    ];
    assert(categories@ =~= cats_cs());
    Archive { id: "cs", name: "Computing Research Repository", categories }
}

fn archive_q_bio() -> (a: Archive)
    ensures
        a@ == (ArchiveSpec { id: "q-bio", name: "Quantitative Biology", categories: cats_q_bio() }),
{
    let categories = vec![
        Category { code: "q-bio.BM", name: "Biomolecules" },
        Category { code: "q-bio.CB", name: "Cell Behavior" },
        Category { code: "q-bio.GN", name: "Genomics" },
        Category { code: "q-bio.MN", name: "Molecular Networks" },
        Category { code: "q-bio.NC", name: "Neurons and Cognition" },
        Category { code: "q-bio.OT", name: "Other Quantitative Biology" },
        Category { code: "q-bio.PE", name: "Populations and Evolution" },
        Category { code: "q-bio.QM", name: "Quantitative Methods" },
        Category { code: "q-bio.SC", name: "Subcellular Processes" },
        Category { code: "q-bio.TO", name: "Tissues and Organs" },
    ];
    assert(categories@ =~= cats_q_bio());
    Archive { id: "q-bio", name: "Quantitative Biology", categories }
}

fn archive_q_fin() -> (a: Archive)
    ensures
        a@ == (ArchiveSpec { id: "q-fin", name: "Quantitative Finance", categories: cats_q_fin() }),
{
    let categories = vec![
        Category { code: "q-fin.CP", name: "Computational Finance" },
        Category { code: "q-fin.EC", name: "Economics" },
        Category { code: "q-fin.GN", name: "General Finance" },
        Category { code: "q-fin.MF", name: "Mathematical Finance" },
        Category { code: "q-fin.PM", name: "Portfolio Management" },
        Category { code: "q-fin.PR", name: "Pricing of Securities" },
        Category { code: "q-fin.RM", name: "Risk Management" },
        Category { code: "q-fin.ST", name: "Statistical Finance" },
        Category { code: "q-fin.TR", name: "Trading and Market Microstructure" },
    ];
    assert(categories@ =~= cats_q_fin());
    Archive { id: "q-fin", name: "Quantitative Finance", categories }
}

fn archive_stat() -> (a: Archive)
    ensures
        a@ == (ArchiveSpec { id: "stat", name: "Statistics", categories: cats_stat() }),
{
    let categories = vec![
        Category { code: "stat.AP", name: "Applications" },
        Category { code: "stat.CO", name: "Computation" },
        Category { code: "stat.ME", name: "Methodology" },
        Category { code: "stat.ML", name: "Machine Learning" },
        Category { code: "stat.OT", name: "Other Statistics" },
        Category { code: "stat.TH", name: "Statistics Theory" },
    ];
    assert(categories@ =~= cats_stat());
    Archive { id: "stat", name: "Statistics", categories }
}

fn archive_eess() -> (a: Archive)
    ensures
        a@ == (ArchiveSpec { id: "eess", name: "Electrical Engineering and Systems Science", categories: cats_eess() }),
{
    let categories = vec![
        Category { code: "eess.AS", name: "Audio and Speech Processing" },
        Category { code: "eess.IV", name: "Image and Video Processing" },
        Category { code: "eess.SP", name: "Signal Processing" },
        Category { code: "eess.SY", name: "Systems and Control" },
    ];
    assert(categories@ =~= cats_eess());
    Archive { id: "eess", name: "Electrical Engineering and Systems Science", categories }
}

fn archive_econ() -> (a: Archive)
    ensures
        a@ == (ArchiveSpec { id: "econ", name: "Economics", categories: cats_econ() }),
{
    let categories = vec![
        Category { code: "econ.EM", name: "Econometrics" },
        Category { code: "econ.GN", name: "General Economics" },
        Category { code: "econ.TH", name: "Theoretical Economics" },
    ];
    assert(categories@ =~= cats_econ());
    Archive { id: "econ", name: "Economics", categories }
}

fn group_physics() -> (g: Group)
    ensures
        g@ == taxonomy_spec()[0],
{
    let mut archives: Vec<Archive> = Vec::new();
    archives.push(archive_astro_ph());
    archives.push(archive_cond_mat());
    archives.push(archive_gr_qc());
    archives.push(archive_hep_ex());
    archives.push(archive_hep_lat());
    archives.push(archive_hep_ph());
    archives.push(archive_hep_th());
    archives.push(archive_math_ph());
    archives.push(archive_nlin());
    archives.push(archive_nucl_ex());
    archives.push(archive_nucl_th());
    archives.push(archive_physics());
    archives.push(archive_quant_ph());
    let g = Group { id: "physics", name: "Physics", archives };
    assert(g@.archives =~= taxonomy_spec()[0].archives);
    g
}

fn group_math() -> (g: Group)
    ensures
        g@ == taxonomy_spec()[1],
{
    let mut archives: Vec<Archive> = Vec::new();
    archives.push(archive_math());
    let g = Group { id: "math", name: "Mathematics", archives };
    assert(g@.archives =~= taxonomy_spec()[1].archives);
    g
}

fn group_cs() -> (g: Group)
    ensures
        g@ == taxonomy_spec()[2],
{
    let mut archives: Vec<Archive> = Vec::new();
    archives.push(archive_cs());
    let g = Group { id: "cs", name: "Computer Science", archives };
    assert(g@.archives =~= taxonomy_spec()[2].archives);
    g
}

fn group_q_bio() -> (g: Group)
    ensures
        g@ == taxonomy_spec()[3],
{
    let mut archives: Vec<Archive> = Vec::new();
    archives.push(archive_q_bio());
    let g = Group { id: "q-bio", name: "Quantitative Biology", archives };
    assert(g@.archives =~= taxonomy_spec()[3].archives);
    g
}

fn group_q_fin() -> (g: Group)
    ensures
        g@ == taxonomy_spec()[4],
{
    let mut archives: Vec<Archive> = Vec::new();
    archives.push(archive_q_fin());
    let g = Group { id: "q-fin", name: "Quantitative Finance", archives };
    assert(g@.archives =~= taxonomy_spec()[4].archives);
    g
}

fn group_stat() -> (g: Group)
    ensures
        g@ == taxonomy_spec()[5],
{
    let mut archives: Vec<Archive> = Vec::new();
    archives.push(archive_stat());
    let g = Group { id: "stat", name: "Statistics", archives };
    assert(g@.archives =~= taxonomy_spec()[5].archives);
    g
}

fn group_eess() -> (g: Group)
    ensures
        g@ == taxonomy_spec()[6],
{
    let mut archives: Vec<Archive> = Vec::new();
    archives.push(archive_eess());
    let g = Group { id: "eess", name: "Electrical Engineering and Systems Science", archives };
    assert(g@.archives =~= taxonomy_spec()[6].archives);
    g
}

fn group_econ() -> (g: Group)
    ensures
        g@ == taxonomy_spec()[7],
{
    let mut archives: Vec<Archive> = Vec::new();
    archives.push(archive_econ());
    let g = Group { id: "econ", name: "Economics", archives };
    assert(g@.archives =~= taxonomy_spec()[7].archives);
    g
}

/// Build the taxonomy table.
pub fn taxonomy() -> (t: Vec<Group>)
    ensures
        t@.map_values(|g: Group| g@) == taxonomy_spec(),
{
    let mut groups: Vec<Group> = Vec::new();
    groups.push(group_physics());
    groups.push(group_math());
    groups.push(group_cs());
    groups.push(group_q_bio());
    groups.push(group_q_fin());
    groups.push(group_stat());
    groups.push(group_eess());
    groups.push(group_econ());
    assert(groups@.map_values(|g: Group| g@) =~= taxonomy_spec());
    groups
}


/// Archives of a list of groups, in table order.
pub open spec fn archives_of(gs: Seq<GroupSpec>) -> Seq<ArchiveSpec>
    decreases gs.len(),
{
    if gs.len() == 0 {
        Seq::empty()
    } else {
        archives_of(gs.drop_last()) + gs.last().archives
    }
}

/// Categories of a list of archives, in table order.
pub open spec fn categories_of(archs: Seq<ArchiveSpec>) -> Seq<Category>
    decreases archs.len(),
{
    if archs.len() == 0 {
        Seq::empty()
    } else {
        categories_of(archs.drop_last()) + archs.last().categories
    }
}

/// Every category of the taxonomy, group by group, archive by archive.
pub open spec fn all_categories_spec() -> Seq<Category> {
    categories_of(archives_of(taxonomy_spec()))
}

/// The first category in `cs` whose code is `code`.
pub open spec fn find_code(cs: Seq<Category>, code: Seq<char>) -> Option<Category>
    decreases cs.len(),
{
    if cs.len() == 0 {
        None
    } else if cs[0].code@ == code {
        Some(cs[0])
    } else {
        find_code(cs.drop_first(), code)
    }
}

proof fn lemma_categories_of_append(a: Seq<ArchiveSpec>, b: Seq<ArchiveSpec>)
    ensures
        categories_of(a + b) == categories_of(a) + categories_of(b),
    decreases b.len(),
{
    if b.len() == 0 {
        assert(a + b == a);
    } else {
        lemma_categories_of_append(a, b.drop_last());
        assert((a + b).drop_last() == a + b.drop_last());
    }
}

/// Every category in table order.
pub fn all_categories() -> (it: std::vec::IntoIter<Category>)
    ensures
        it.remaining() == all_categories_spec(),
{
    let v = all_categories_vec();
    broadcast use vstd::std_specs::vec::axiom_spec_into_iter;
    v.into_iter()
}

pub(crate) fn all_categories_vec() -> (v: Vec<Category>)
    ensures
        v@ == all_categories_spec(),
{
    let groups = taxonomy();
    let ghost gs = groups@.map_values(|g: Group| g@);
    let mut out: Vec<Category> = Vec::new();
    let mut gi: usize = 0;
    while gi < groups.len()
        invariant
            gi <= groups@.len(),
            gs == groups@.map_values(|g: Group| g@),
            gs == taxonomy_spec(),
            out@ == categories_of(archives_of(gs.take(gi as int))),
        decreases groups@.len() - gi,
    {
        let g = &groups[gi];
        let ghost base = out@;
        let ghost gas = g@.archives;
        let mut ai: usize = 0;
        while ai < g.archives.len()
            invariant
                ai <= g.archives@.len(),
                gas == g.archives@.map_values(|a: Archive| a@),
                out@ == base + categories_of(gas.take(ai as int)),
            decreases g.archives@.len() - ai,
        {
            let a = &g.archives[ai];
            let ghost mid = out@;
            let mut ci: usize = 0;
            while ci < a.categories.len()
                invariant
                    ci <= a.categories@.len(),
                    out@ == mid + a.categories@.take(ci as int),
                decreases a.categories@.len() - ci,
            {
                out.push(a.categories[ci]);
                assert(a.categories@.take(ci + 1) == a.categories@.take(ci as int).push(a.categories@[ci as int]));
                ci += 1;
            }
            proof {
                assert(a.categories@.take(a.categories@.len() as int) == a.categories@);
                assert(gas.take(ai + 1).drop_last() == gas.take(ai as int));
                assert(gas.take(ai + 1).last() == a@);
            }
            ai += 1;
        }
        proof {
            assert(gas.take(gas.len() as int) == gas);
            assert(gs.take(gi + 1).drop_last() == gs.take(gi as int));
            assert(gs.take(gi + 1).last() == g@);
            lemma_categories_of_append(archives_of(gs.take(gi as int)), gas);
        }
        gi += 1;
    }
    assert(gs.take(gs.len() as int) == gs);
    out
}

/// Look up a category by its canonical code (e.g. `cs.LG`): the first
/// category in table order with that code.
pub fn find_category(code: &str) -> (r: Option<Category>)
    ensures
        r == find_code(all_categories_spec(), code@),
{
    let cats = all_categories_vec();
    assert(cats@.subrange(0, cats@.len() as int) == cats@);
    let mut i: usize = 0;
    while i < cats.len()
        invariant
            i <= cats@.len(),
            cats@ == all_categories_spec(),
            find_code(cats@, code@) == find_code(cats@.subrange(i as int, cats@.len() as int), code@),
        decreases cats@.len() - i,
    {
        let ghost rest = cats@.subrange(i as int, cats@.len() as int);
        assert(rest.drop_first() == cats@.subrange(i + 1, cats@.len() as int));
        assert(rest[0] == cats@[i as int]);
        if str_eq(cats[i].code, code) {
            return Some(cats[i]);
        }
        i += 1;
    }
    None
}

/// Total number of top-level groups.
pub fn group_count() -> (n: usize)
    ensures
        n == taxonomy_spec().len(),
{
    taxonomy().len()
}

/// The (id, name) pairs of a list of archives.
pub open spec fn archive_keys(archs: Seq<ArchiveSpec>) -> Seq<(&'static str, &'static str)> {
    archs.map_values(|a: ArchiveSpec| (a.id, a.name))
}

/// The (id, name) pair of every archive of the taxonomy, in table order.
pub open spec fn all_archive_keys() -> Seq<(&'static str, &'static str)> {
    archive_keys(archives_of(taxonomy_spec()))
}

/// Every archive's (id, name), in table order.
pub(crate) fn all_archive_keys_vec() -> (v: Vec<(&'static str, &'static str)>)
    ensures
        v@ == all_archive_keys(),
{
    let groups = taxonomy();
    let ghost gs = groups@.map_values(|g: Group| g@);
    let mut out: Vec<(&'static str, &'static str)> = Vec::new();
    let mut gi: usize = 0;
    while gi < groups.len()
        invariant
            gi <= groups@.len(),
            gs == groups@.map_values(|g: Group| g@),
            gs == taxonomy_spec(),
            out@ == archive_keys(archives_of(gs.take(gi as int))),
        decreases groups@.len() - gi,
    {
        let g = &groups[gi];
        let ghost base = out@;
        let ghost gas = g@.archives;
        let mut ai: usize = 0;
        while ai < g.archives.len()
            invariant
                ai <= g.archives@.len(),
                gas == g.archives@.map_values(|a: Archive| a@),
                out@ == base + archive_keys(gas.take(ai as int)),
            decreases g.archives@.len() - ai,
        {
            let a = &g.archives[ai];
            out.push((a.id, a.name));
            proof {
                assert(gas[ai as int] == a@);
                assert(archive_keys(gas.take(ai + 1)) =~= archive_keys(gas.take(ai as int)).push(
                    (a.id, a.name),
                ));
            }
            ai += 1;
        }
        proof {
            assert(gas.take(gas.len() as int) == gas);
            assert(gs.take(gi + 1).drop_last() == gs.take(gi as int));
            assert(gs.take(gi + 1).last() == g@);
            assert(archives_of(gs.take(gi + 1)) == archives_of(gs.take(gi as int)) + gas);
            assert(archive_keys(archives_of(gs.take(gi as int)) + gas) =~= archive_keys(
                archives_of(gs.take(gi as int)),
            ) + archive_keys(gas));
        }
        gi += 1;
    }
    assert(gs.take(gs.len() as int) == gs);
    out
}

/// A domain tag matches a `cat:` search value: it is that code (ignoring
/// ASCII case), or lies under it (`cs` matches every `cs.*`).
pub open spec fn tag_matches_category(tag: Seq<char>, cat: Seq<char>) -> bool {
    eq_ignore_ascii_case(tag, cat) || has_prefix(ascii_lower_seq(tag), ascii_lower_seq(cat).push('.'))
}

/// Some tag of `tags` matches the category `cat`.
pub open spec fn some_tag_matches(tags: Seq<String>, cat: Seq<char>) -> bool {
    exists|j: int| 0 <= j < tags.len() && tag_matches_category(#[trigger] tags[j]@, cat)
}

/// Whether some tag of `tags` matches the category `cat`.
pub fn item_matches_category(tags: &Vec<String>, cat: &str) -> (r: bool)
    ensures
        r == some_tag_matches(tags@, cat@),
{
    let mut prefix = ascii_lower_chars(cat);
    prefix.push('.');
    let n = tags.len();
    let mut i: usize = 0;
    while i < n
        invariant
            n == tags@.len(),
            i <= n,
            prefix@ == ascii_lower_seq(cat@).push('.'),
            forall|k: int| 0 <= k < i ==> !tag_matches_category(#[trigger] tags@[k]@, cat@),
        decreases n - i,
    {
        let t = tags[i].as_str();
        if str_eq_ignore_ascii_case(t, cat) || starts_with_chars(&ascii_lower_chars(t), &prefix) {
            return true;
        }
        i += 1;
    }
    false
}

} // verus!
