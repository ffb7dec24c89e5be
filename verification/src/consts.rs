//! The tables of the library: the colour names that X11 and CSS share, and
//! the thresholds at which a component between 0 and 1 takes its next channel
//! value.

use vstd::prelude::*;

verus! {

/// The number of names in the table.
pub const X11_NAME_COUNT: usize = 149;

/// Each name, in lower case, with its hexadecimal code. The last entry,
/// `transparent`, carries a code of eight digits.
pub const X11_COLORS: [(&'static str, &'static str); 149] = [
    ("aliceblue", "#f0f8ff"), ("antiquewhite", "#faebd7"), ("aqua", "#00ffff"),
    ("aquamarine", "#7fffd4"), ("azure", "#f0ffff"), ("beige", "#f5f5dc"), ("bisque", "#ffe4c4"),
    ("black", "#000000"), ("blanchedalmond", "#ffebcd"), ("blue", "#0000ff"),
    ("blueviolet", "#8a2be2"), ("brown", "#a52a2a"), ("burlywood", "#deb887"),
    ("cadetblue", "#5f9ea0"), ("chartreuse", "#7fff00"), ("chocolate", "#d2691e"),
    ("coral", "#ff7f50"), ("cornflowerblue", "#6495ed"), ("cornsilk", "#fff8dc"),
    ("crimson", "#dc143c"), ("cyan", "#00ffff"), ("darkblue", "#00008b"), ("darkcyan", "#008b8b"),
    ("darkgoldenrod", "#b8860b"), ("darkgray", "#a9a9a9"), ("darkgreen", "#006400"),
    ("darkgrey", "#a9a9a9"), ("darkkhaki", "#bdb76b"), ("darkmagenta", "#8b008b"),
    ("darkolivegreen", "#556b2f"), ("darkorange", "#ff8c00"), ("darkorchid", "#9932cc"),
    ("darkred", "#8b0000"), ("darksalmon", "#e9967a"), ("darkseagreen", "#8fbc8f"),
    ("darkslateblue", "#483d8b"), ("darkslategray", "#2f4f4f"), ("darkslategrey", "#2f4f4f"),
    ("darkturquoise", "#00ced1"), ("darkviolet", "#9400d3"), ("deeppink", "#ff1493"),
    ("deepskyblue", "#00bfff"), ("dimgray", "#696969"), ("dimgrey", "#696969"),
    ("dodgerblue", "#1e90ff"), ("firebrick", "#b22222"), ("floralwhite", "#fffaf0"),
    ("forestgreen", "#228b22"), ("fuchsia", "#ff00ff"), ("gainsboro", "#dcdcdc"),
    ("ghostwhite", "#f8f8ff"), ("gold", "#ffd700"), ("goldenrod", "#daa520"), ("gray", "#808080"),
    ("green", "#008000"), ("greenyellow", "#adff2f"), ("grey", "#808080"),
    ("honeydew", "#f0fff0"), ("hotpink", "#ff69b4"), ("indianred", "#cd5c5c"),
    ("indigo", "#4b0082"), ("ivory", "#fffff0"), ("khaki", "#f0e68c"), ("lavender", "#e6e6fa"),
    ("lavenderblush", "#fff0f5"), ("lawngreen", "#7cfc00"), ("lemonchiffon", "#fffacd"),
    ("lightblue", "#add8e6"), ("lightcoral", "#f08080"), ("lightcyan", "#e0ffff"),
    ("lightgoldenrodyellow", "#fafad2"), ("lightgray", "#d3d3d3"), ("lightgreen", "#90ee90"),
    ("lightgrey", "#d3d3d3"), ("lightpink", "#ffb6c1"), ("lightsalmon", "#ffa07a"),
    ("lightseagreen", "#20b2aa"), ("lightskyblue", "#87cefa"), ("lightslategray", "#778899"),
    ("lightslategrey", "#778899"), ("lightsteelblue", "#b0c4de"), ("lightyellow", "#ffffe0"),
    ("lime", "#00ff00"), ("limegreen", "#32cd32"), ("linen", "#faf0e6"), ("magenta", "#ff00ff"),
    ("maroon", "#800000"), ("mediumaquamarine", "#66cdaa"), ("mediumblue", "#0000cd"),
    ("mediumorchid", "#ba55d3"), ("mediumpurple", "#9370db"), ("mediumseagreen", "#3cb371"),
    ("mediumslateblue", "#7b68ee"), ("mediumspringgreen", "#00fa9a"),
    ("mediumturquoise", "#48d1cc"), ("mediumvioletred", "#c71585"), ("midnightblue", "#191970"),
    ("mintcream", "#f5fffa"), ("mistyrose", "#ffe4e1"), ("moccasin", "#ffe4b5"),
    ("navajowhite", "#ffdead"), ("navy", "#000080"), ("oldlace", "#fdf5e6"), ("olive", "#808000"),
    ("olivedrab", "#6b8e23"), ("orange", "#ffa500"), ("orangered", "#ff4500"),
    ("orchid", "#da70d6"), ("palegoldenrod", "#eee8aa"), ("palegreen", "#98fb98"),
    ("paleturquoise", "#afeeee"), ("palevioletred", "#db7093"), ("papayawhip", "#ffefd5"),
    ("peachpuff", "#ffdab9"), ("peru", "#cd853f"), ("pink", "#ffc0cb"), ("plum", "#dda0dd"),
    ("powderblue", "#b0e0e6"), ("purple", "#800080"), ("rebeccapurple", "#663399"),
    ("red", "#ff0000"), ("rosybrown", "#bc8f8f"), ("royalblue", "#4169e1"),
    ("saddlebrown", "#8b4513"), ("salmon", "#fa8072"), ("sandybrown", "#f4a460"),
    ("seagreen", "#2e8b57"), ("seashell", "#fff5ee"), ("sienna", "#a0522d"),
    ("silver", "#c0c0c0"), ("skyblue", "#87ceeb"), ("slateblue", "#6a5acd"),
    ("slategray", "#708090"), ("slategrey", "#708090"), ("snow", "#fffafa"),
    ("springgreen", "#00ff7f"), ("steelblue", "#4682b4"), ("tan", "#d2b48c"), ("teal", "#008080"),
    ("thistle", "#d8bfd8"), ("tomato", "#ff6347"), ("turquoise", "#40e0d0"),
    ("violet", "#ee82ee"), ("wheat", "#f5deb3"), ("white", "#ffffff"), ("whitesmoke", "#f5f5f5"),
    ("yellow", "#ffff00"), ("yellowgreen", "#9acd32"), ("transparent", "#00000000"),
];

/// The number of channel values above 0.
pub const UNIT_THRESHOLD_COUNT: usize = 255;

/// The thresholds of the channel values of a component between 0 and 1. The
/// entry at place `j` holds the fraction digits of the threshold between the
/// components of channel value `j` and those of `j + 1`, and tells whether the
/// threshold itself belongs to the greater value.
///
/// The channel value of a component is that of binary floating point
/// arithmetic: the component is rounded to the nearest value of 64 bits and
/// multiplied by 255, a millionth is subtracted, and the difference is rounded
/// to the nearest integer, each step being rounded in its turn. Between two
/// neighbouring values of 64 bits the result changes at most once, so each
/// threshold lies halfway between two of them and has finitely many digits;
/// there the nearest value is the one whose last bit is 0.
pub const UNIT_THRESHOLDS: [(&'static str, bool); 255] = [
    ("00196078823529411750727080576695016134181059896945953369140625", false),
    ("0058823568627450971944836677351986509165726602077484130859375", true),
    ("009803925490196078833260440177355121704749763011932373046875", true),
    ("013725494117647059170994605636906271683983504772186279296875", true),
    ("01764706274509803864136703310805387445725500583648681640625", false),
    ("02156863137254901897910119856760502443648874759674072265625", false),
    ("02549019999999999931683536402715617441572248935699462890625", false),
    ("02941176862745097965456952948670732439495623111724853515625", false),
    ("0333333372549019547881332670158371911384165287017822265625", false),
    ("0372549058823529351258674324753883411176502704620361328125", false),
    ("0411764745098039154636015979349394910968840122222900390625", false),
    ("0450980431372548958013357633944906410761177539825439453125", false),
    ("0490196117647058761390699288540417910553514957427978515625", false),
    ("0529411803921568564768040943135929410345852375030517578125", false),
    ("0568627490196078368145382597731440910138189792633056640625", false),
    ("0607843176470588171522724252326952409930527210235595703125", false),
    ("064705886274509800959453542645860579796135425567626953125", false),
    ("068627454901960781297187708105411729775369167327880859375", true),
    ("072549023529411761634921873564962879754602909088134765625", false),
    ("076470592156862741972656039024514029733836650848388671875", true),
    ("080392160784313722310390204484065179713070392608642578125", false),
    ("084313729411764702648124369943616329692304134368896484375", true),
    ("088235298039215682985858535403167479671537876129150390625", false),
    ("092156866666666663323592700862718629650771617889404296875", true),
    ("096078435294117643661326866322269779630005359649658203125", false),
    ("100000003921568623999061031781820929609239101409912109375", true),
    ("103921572549019604336795197241372079588472843170166015625", false),
    ("107843141176470584674529362700923229567706584930419921875", true),
    ("111764709803921565012263528160474379546940326690673828125", false),
    ("115686278431372545349997693620025529526174068450927734375", true),
    ("119607847058823525687731859079576679505407810211181640625", false),
    ("123529415686274506025466024539127829484641551971435546875", true),
    ("12745098431372546554651847827699384652078151702880859375", true),
    ("13137255294117645976204045155100175179541110992431640625", false),
    ("13529412156862742622198680919609614647924900054931640625", false),
    ("13921569019607842043750878247010405175387859344482421875", true),
    ("14313725882352938689745514011519844643771648406982421875", true),
    ("14705882745098038111297711338920635171234607696533203125", false),
    ("15098039607843134757292347103430074639618396759033203125", false),
    ("15490196470588234178844544430830865167081356048583984375", true),
    ("15882353333333330824839180195340304635465145111083984375", true),
    ("16274510196078430246391377522741095162928104400634765625", false),
    ("16666667058823526892386013287250534631311893463134765625", false),
    ("17058823921568626313938210614651325158774852752685546875", true),
    ("17450980784313722959932846379160764627158641815185546875", true),
    ("17843137647058822381485043706561555154621601104736328125", false),
    ("18235294509803919027479679471070994623005390167236328125", false),
    ("18627451372549018449031876798471785150468349456787109375", true),
    ("19019608235294115095026512562981224618852138519287109375", true),
    ("19411765098039214516578709890382015146315097808837890625", false),
    ("19803921960784311162573345654891454614698886871337890625", false),
    ("20196078823529410584125542982292245142161846160888671875", true),
    ("20588235686274507230120178746801684610545635223388671875", true),
    ("20980392549019606651672376074202475138008594512939453125", false),
    ("21372549411764703297667011838711914606392383575439453125", false),
    ("21764706274509802719219209166112705133855342864990234375", true),
    ("22156863137254899365213844930622144602239131927490234375", true),
    ("22549019999999998786766042258022935129702091217041015625", false),
    ("22941176862745095432760678022532374598085880279541015625", false),
    ("23333333725490194854312875349933165125548839569091796875", true),
    ("23725490588235291500307511114442604593932628631591796875", true),
    ("24117647450980390921859708441843395121395587921142578125", false),
    ("24509804313725487567854344206352834589779376983642578125", false),
    ("24901961176470586989406541533753625117242336273193359375", true),
    ("2529411803921568224762239651681738905608654022216796875", true),
    ("2568627490196077889361703228132682852447032928466796875", true),
    ("2607843176470588109072679117161897011101245880126953125", false),
    ("2647058862745097773672142693612840957939624786376953125", false),
    ("2686274549019607438271606270063784904778003692626953125", false),
    ("2725490235294117102871069846514728851616382598876953125", false),
    ("2764705921568627322582045735543943010270595550537109375", true),
    ("2803921607843136987181509311994886957108974456787109375", true),
    ("2843137294117646651780972888445830903947353363037109375", true),
    ("2882352980392156316380436464896774850785732269287109375", true),
    ("2921568666666666536091412353925989009439945220947265625", false),
    ("2960784352941176200690875930376932956278324127197265625", false),
    ("3000000039215685865290339506827876903116703033447265625", false),
    ("3039215725490195529889803083278820849955081939697265625", false),
    ("3078431411764705749600778972308035008609294891357421875", true),
    ("3117647098039215414200242548758978955447673797607421875", true),
    ("3156862784313725078799706125209922902286052703857421875", true),
    ("3196078470588234743399169701660866849124431610107421875", true),
    ("3235294156862744963110145590690081007778644561767578125", false),
    ("3274509843137254627709609167141024954617023468017578125", false),
    ("3313725529411764292309072743591968901455402374267578125", false),
    ("3352941215686273956908536320042912848293781280517578125", false),
    ("3392156901960784176619512209072127006947994232177734375", true),
    ("3431372588235293841218975785523070953786373138427734375", true),
    ("3470588274509803505818439361974014900624752044677734375", true),
    ("3509803960784313170417902938424958847463130950927734375", true),
    ("3549019647058823390128878827454173006117343902587890625", false),
    ("3588235333333333054728342403905116952955722808837890625", false),
    ("3627451019607842719327805980356060899794101715087890625", false),
    ("3666666705882352383927269556807004846632480621337890625", false),
    ("3705882392156862603638245445836219005286693572998046875", true),
    ("3745098078431372268237709022287162952125072479248046875", true),
    ("3784313764705881932837172598738106898963451385498046875", true),
    ("3823529450980391597436636175189050845801830291748046875", true),
    ("3862745137254901817147612064218265004456043243408203125", false),
    ("3901960823529411481747075640669208951294422149658203125", false),
    ("3941176509803921146346539217120152898132801055908203125", false),
    ("3980392196078430810946002793571096844971179962158203125", false),
    ("4019607882352941030656978682600311003625392913818359375", true),
    ("4058823568627450695256442259051254950463771820068359375", true),
    ("4098039254901960359855905835502198897302150726318359375", true),
    ("4137254941176470024455369411953142844140529632568359375", true),
    ("4176470627450980244166345300982357002794742584228515625", false),
    ("4215686313725489908765808877433300949633121490478515625", false),
    ("4254901999999999573365272453884244896471500396728515625", false),
    ("4294117686274509237964736030335188843309879302978515625", false),
    ("4333333372549019457675711919364403001964092254638671875", true),
    ("4372549058823529122275175495815346948802471160888671875", true),
    ("4411764745098038786874639072266290895640850067138671875", true),
    ("4450980431372548451474102648717234842479228973388671875", true),
    ("4490196117647058671185078537746449001133441925048828125", false),
    ("4529411803921568335784542114197392947971820831298828125", false),
    ("4568627490196078000384005690648336894810199737548828125", false),
    ("4607843176470587664983469267099280841648578643798828125", false),
    ("4647058862745097884694445156128495000302791595458984375", true),
    ("4686274549019607549293908732579438947141170501708984375", true),
    ("4725490235294117213893372309030382893979549407958984375", true),
    ("4764705921568626878492835885481326840817928314208984375", true),
    ("4803921607843137098203811774510540999472141265869140625", false),
    ("4843137294117646762803275350961484946310520172119140625", false),
    ("4882352980392156427402738927412428893148899078369140625", false),
    ("4921568666666666092002202503863372839987277984619140625", false),
    ("4960784352941176311713178392892586998641490936279296875", true),
    ("500000003921568569875688581305439583957195281982421875", true),
    ("503921572549019536335634938950533978641033172607421875", true),
    ("507843141176470502795581296595628373324871063232421875", true),
    ("511764709803921469255527654240722768008708953857421875", true),
    ("515686278431372435715474011885817162692546844482421875", true),
    ("519607847058823513197722832046565599739551544189453125", false),
    ("523529415686274479657669189691659994423389434814453125", false),
    ("527450984313725446117615547336754389107227325439453125", false),
    ("531372552941176412577561904981848783791065216064453125", false),
    ("535294121568627379037508262626943178474903106689453125", false),
    ("539215690196078345497454620272037573158740997314453125", false),
    ("543137258823529311957400977917131967842578887939453125", false),
    ("547058827450980278417347335562226362526416778564453125", false),
    ("550980396078431355899596155722974799573421478271484375", true),
    ("554901964705882322359542513368069194257259368896484375", true),
    ("558823533333333288819488871013163588941097259521484375", true),
    ("562745101960784255279435228658257983624935150146484375", true),
    ("566666670588235221739381586303352378308773040771484375", true),
    ("570588239215686188199327943948446772992610931396484375", true),
    ("574509807843137154659274301593541167676448822021484375", true),
    ("578431376470588121119220659238635562360286712646484375", true),
    ("582352945098039198601469479399383999407291412353515625", false),
    ("586274513725490165061415837044478394091129302978515625", false),
    ("590196082352941131521362194689572788774967193603515625", false),
    ("594117650980392097981308552334667183458805084228515625", false),
    ("598039219607843064441254909979761578142642974853515625", false),
    ("601960788235294030901201267624855972826480865478515625", false),
    ("605882356862744997361147625269950367510318756103515625", false),
    ("609803925490195963821093982915044762194156646728515625", false),
    ("613725494117647041303342803075793199241161346435546875", true),
    ("617647062745098007763289160720887593924999237060546875", true),
    ("621568631372548974223235518365981988608837127685546875", true),
    ("625490199999999940683181876011076383292675018310546875", true),
    ("629411768627450907143128233656170777976512908935546875", true),
    ("633333337254901873603074591301265172660350799560546875", true),
    ("637254905882352840063020948946359567344188690185546875", true),
    ("641176474509803806522967306591453962028026580810546875", true),
    ("645098043137254884005216126752202399075031280517578125", false),
    ("649019611764705850465162484397296793758869171142578125", false),
    ("652941180392156816925108842042391188442707061767578125", false),
    ("656862749019607783385055199687485583126544952392578125", false),
    ("660784317647058749845001557332579977810382843017578125", false),
    ("664705886274509716304947914977674372494220733642578125", false),
    ("668627454901960682764894272622768767178058624267578125", false),
    ("672549023529411649224840630267863161861896514892578125", false),
    ("676470592156862726707089450428611598908901214599609375", true),
    ("680392160784313693167035808073705993592739105224609375", true),
    ("684313729411764659626982165718800388276576995849609375", true),
    ("688235298039215626086928523363894782960414886474609375", true),
    ("692156866666666592546874881008989177644252777099609375", true),
    ("696078435294117559006821238654083572328090667724609375", true),
    ("700000003921568525466767596299177967011928558349609375", true),
    ("703921572549019491926713953944272361695766448974609375", true),
    ("707843141176470569408962774105020798742771148681640625", false),
    ("711764709803921535868909131750115193426609039306640625", false),
    ("715686278431372502328855489395209588110446929931640625", false),
    ("719607847058823468788801847040303982794284820556640625", false),
    ("723529415686274435248748204685398377478122711181640625", false),
    ("727450984313725401708694562330492772161960601806640625", false),
    ("731372552941176368168640919975587166845798492431640625", false),
    ("735294121568627334628587277620681561529636383056640625", false),
    ("739215690196078412110836097781429998576641082763671875", true),
    ("743137258823529378570782455426524393260478973388671875", true),
    ("747058827450980345030728813071618787944316864013671875", true),
    ("750980396078431311490675170716713182628154754638671875", true),
    ("754901964705882277950621528361807577311992645263671875", true),
    ("758823533333333244410567886006901971995830535888671875", true),
    ("762745101960784210870514243651996366679668426513671875", true),
    ("766666670588235177330460601297090761363506317138671875", true),
    ("770588239215686254812709421457839198410511016845703125", false),
    ("774509807843137221272655779102933593094348907470703125", false),
    ("778431376470588187732602136748027987778186798095703125", false),
    ("782352945098039154192548494393122382462024688720703125", false),
    ("786274513725490120652494852038216777145862579345703125", false),
    ("790196082352941087112441209683311171829700469970703125", false),
    ("794117650980392053572387567328405566513538360595703125", false),
    ("798039219607843020032333924973499961197376251220703125", false),
    ("801960788235294097514582745134248398244380950927734375", true),
    ("805882356862745063974529102779342792928218841552734375", true),
    ("809803925490196030434475460424437187612056732177734375", true),
    ("813725494117646996894421818069531582295894622802734375", true),
    ("817647062745097963354368175714625976979732513427734375", true),
    ("821568631372548929814314533359720371663570404052734375", true),
    ("825490199999999896274260891004814766347408294677734375", true),
    ("829411768627450862734207248649909161031246185302734375", true),
    ("833333337254901940216456068810657598078250885009765625", false),
    ("837254905882352906676402426455751992762088775634765625", false),
    ("841176474509803873136348784100846387445926666259765625", false),
    ("845098043137254839596295141745940782129764556884765625", false),
    ("849019611764705806056241499391035176813602447509765625", false),
    ("852941180392156772516187857036129571497440338134765625", false),
    ("856862749019607738976134214681223966181278228759765625", false),
    ("860784317647058705436080572326318360865116119384765625", false),
    ("864705886274509782918329392487066797912120819091796875", true),
    ("868627454901960749378275750132161192595958709716796875", true),
    ("872549023529411715838222107777255587279796600341796875", true),
    ("876470592156862682298168465422349981963634490966796875", true),
    ("880392160784313648758114823067444376647472381591796875", true),
    ("884313729411764615218061180712538771331310272216796875", true),
    ("888235298039215581678007538357633166015148162841796875", true),
    ("892156866666666548137953896002727560698986053466796875", true),
    ("896078435294117625620202716163475997745990753173828125", false),
    ("900000003921568592080149073808570392429828643798828125", false),
    ("903921572549019558540095431453664787113666534423828125", false),
    ("907843141176470525000041789098759181797504425048828125", false),
    ("911764709803921491459988146743853576481342315673828125", false),
    ("915686278431372457919934504388947971165180206298828125", false),
    ("919607847058823424379880862034042365849018096923828125", false),
    ("923529415686274390839827219679136760532855987548828125", false),
    ("927450984313725468322076039839885197579860687255859375", true),
    ("931372552941176434782022397484979592263698577880859375", true),
    ("935294121568627401241968755130073986947536468505859375", true),
    ("939215690196078367701915112775168381631374359130859375", true),
    ("943137258823529334161861470420262776315212249755859375", true),
    ("947058827450980300621807828065357170999050140380859375", true),
    ("950980396078431267081754185710451565682888031005859375", true),
    ("954901964705882233541700543355545960366725921630859375", true),
    ("958823533333333311023949363516294397413730621337890625", false),
    ("962745101960784277483895721161388792097568511962890625", false),
    ("966666670588235243943842078806483186781406402587890625", false),
    ("970588239215686210403788436451577581465244293212890625", false),
    ("974509807843137176863734794096671976149082183837890625", false),
    ("978431376470588143323681151741766370832920074462890625", false),
    ("982352945098039109783627509386860765516757965087890625", false),
    ("986274513725490076243573867031955160200595855712890625", false),
    ("990196082352941153725822687192703597247600555419921875", true),
    ("994117650980392120185769044837797991931438446044921875", true),
    ("998039219607843086645715402482892386615276336669921875", true),
];

} // verus!
