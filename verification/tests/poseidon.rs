use poseidon::constants::CircomPoseidonConstants;
use poseidon::field::FieldElement;
use poseidon::poseidon::{CircomPoseidon, State};

fn fe(s: &str) -> FieldElement {
    FieldElement::from_decimal(s).unwrap()
}

fn state(a: &str, b: &str, c: &str) -> State {
    State { s0: fe(a), s1: fe(b), s2: fe(c) }
}

fn engine(a: &str, b: &str, c: &str) -> CircomPoseidon {
    CircomPoseidon { constants: CircomPoseidonConstants::default(), state: state(a, b, c) }
}

fn assert_state(got: &State, a: &str, b: &str, c: &str) {
    assert!(got.equals(&state(a, b, c)));
}

#[test]
fn test_sigma() {
    let x = fe("10498446744258291650735421565632985639701981041287181768865869454200878131887");
    let result = CircomPoseidon::sigma(&x);
    assert!(result.equals(&fe("12482121694093354782765194089691070098368127388830956394165914815968551446065")));
}

#[test]
fn test_mix_m() {
    let result = engine(
        "18748214218909041356337553469301793477858404099161101255670448756216508301025",
        "14001090959915885276730193140615367824457344208709298148449921602972961864271",
        "21039621298411050525972067638905940728497671706374440393718856029109245780568",
    ).apply_mix_m();
    assert_state(
        &result.state,
        "19212249459613001635322677932044571594832098024684187537767379651838537722242",
        "13346432103628585998281534921408530751039791002079061852835106438825147371757",
        "470145441107885699228147589021085756242352387945133942451294769220019691807",
    );
}

#[test]
fn test_mix_p() {
    let result = engine(
        "11054539610865716959112730216921823956884402188047559139840762443903078964807",
        "889496775026312796519119247885544826173520850299645133418342221246834572377",
        "20327605851775715928805880379802842509685187839623124393912839998555298548830",
    ).apply_mix_p();
    assert_state(
        &result.state,
        "10957445925160270044693914644787882019446927193081715019239813790612436710990",
        "15617724767560381146854323530626642274265602408002782166490987198203153486720",
        "8188576910493806248734793780989996031043527802574000617472436041968065581651",
    );
}

#[test]
fn test_mix_s() {
    let result = engine(
        "1073104925714253051670422979696287993089561378609784836524058216953452518800",
        "18698081889797527287892615152858593919908252735314388801102459459095355586529",
        "964734953777785051088731259326514402767379753056823320461487398194316968472",
    ).apply_mix_s(0);
    assert_state(
        &result.state,
        "4413576681639644708927435504116008819690219979742107806543982128344816486059",
        "18047144526083855362077562050797531820746747110365503012268045400381426067118",
        "14512113857556374279800803178193270419547881978169561761995632044104001997174",
    );
}

#[test]
fn test_mix_last() {
    let result = engine(
        "14903581272446463225204524721363305270359053220610820269937666541151177015349",
        "17993715061665243415477544347824042376858770491012817421933497650720324679864",
        "15253365088956611786925658848458340812843569370338269931949433692506640669343",
    ).mix_last(0);
    assert!(result.equals(&fe("10776602241119476978803538453188198564682373569005749437912787513019500133942")));
}

#[test]
fn test_ark() {
    let result = engine(
        "13113380046921429357968206206413495707844213025058902153087258344566081685705",
        "15502287019891195293542473848301291711293573680196308374326156854444666425933",
        "960782068423008155923835610511860070078873921748828059626034504954890453563",
    ).apply_ark(0);
    assert_state(
        &result.state,
        "19858578037131633956342249035175485304147089324604866555944670074438212720439",
        "15928568697651131885563790657366470529141658358875818949042050993134916565681",
        "4974970831339591754812778277936825500366371746378485279433975965182263031344",
    );
}

#[test]
fn test_poseidon() {
    let result = CircomPoseidon::hash(
        fe("4919343374109933223627495853328117416310439472367144134356200729566675210393"),
        fe("5253109015430049131200882288700211126182357120559979176158196848667194692355"),
    );
    assert!(result.equals(&fe("4804190683062966564094284552215482492423412176373545691806986132546823080430")));
}
